//! The plain data records that the client exchanges with the server, and the
//! lookups and updates the client performs on lists of them.

use vstd::prelude::*;
use vstd::string::*;
use crate::text::str_equal;

verus! {

/// Program summary info for listing.
#[derive(Debug)]
pub struct ProgramInfo {
    pub id: i64,
    pub name: String,
    pub description: Option<String>,
    pub instruction_count: i64,
    pub created_at: String,
    pub updated_at: String,
}

/// Robot configuration (named configurations per robot).
#[derive(Debug)]
pub struct RobotConfigurationDto {
    pub id: i64,
    pub robot_connection_id: i64,
    pub name: String,
    pub is_default: bool,
    pub u_frame_number: i32,
    pub u_tool_number: i32,
    pub front: i32,
    pub up: i32,
    pub left: i32,
    pub flip: i32,
    pub turn4: i32,
    pub turn5: i32,
    pub turn6: i32,
}

/// New robot configuration (for creating configurations without an ID).
#[derive(Debug)]
pub struct NewRobotConfigurationDto {
    pub name: String,
    pub is_default: bool,
    pub u_frame_number: i32,
    pub u_tool_number: i32,
    pub front: i32,
    pub up: i32,
    pub left: i32,
    pub flip: i32,
    pub turn4: i32,
    pub turn5: i32,
    pub turn6: i32,
}

/// A single change entry in the change log.
#[derive(Debug)]
pub struct ChangeLogEntryDto {
    pub field_name: String,
    pub old_value: String,
    pub new_value: String,
}

/// I/O display configuration.
#[derive(Debug)]
pub struct IoDisplayConfigDto {
    pub io_type: String,
    pub io_index: i32,
    pub display_name: Option<String>,
    pub is_visible: bool,
    pub display_order: Option<i32>,
}

// ---------------------------------------------------------------------------
// Lists keyed by ID
// ---------------------------------------------------------------------------

/// Whether `i` is the first position of `id` in `ids`.
pub open spec fn is_first_index_of(ids: Seq<i64>, id: i64, i: int) -> bool {
    &&& 0 <= i < ids.len()
    &&& ids[i] == id
    &&& forall|j: int| 0 <= j < i ==> ids[j] != id
}

/// The position of the first entry with the given ID, if any; no ID finds
/// nothing.
pub fn position_of_id(ids: &Vec<i64>, id: Option<i64>) -> (r: Option<usize>)
    ensures
        match (r, id) {
            (Some(i), Some(t)) => is_first_index_of(ids@, t, i as int),
            (Some(_), None) => false,
            (None, Some(t)) => !ids@.contains(t),
            (None, None) => true,
        },
{
    match id {
        None => None,
        Some(target) => {
            let mut i: usize = 0;
            while i < ids.len()
                invariant
                    id == Some(target),
                    i <= ids.len(),
                    forall|j: int| 0 <= j < i ==> ids@[j] != target,
                decreases ids.len() - i,
            {
                if ids[i] == target {
                    assert(is_first_index_of(ids@, target, i as int));
                    return Some(i);
                }
                i = i + 1;
            }
            assert(!ids@.contains(target)) by {
                if ids@.contains(target) {
                    let k = choose|k: int| 0 <= k < ids@.len() && ids@[k] == target;
                    assert(ids@[k] != target);
                }
            }
            None
        },
    }
}

/// Whether `i` is the last position that holds the largest ID.
pub open spec fn is_last_max_index(ids: Seq<i64>, i: int) -> bool {
    &&& 0 <= i < ids.len()
    &&& forall|j: int| 0 <= j < ids.len() ==> ids[j] <= ids[i]
    &&& forall|j: int| i < j < ids.len() ==> ids[j] < ids[i]
}

/// The position of the newest entry, the one with the largest ID (the last
/// of them when several share it, as `Iterator::max_by_key` picks); an
/// empty list has none.
pub fn newest_index(ids: &Vec<i64>) -> (r: Option<usize>)
    ensures
        match r {
            Some(i) => is_last_max_index(ids@, i as int),
            None => ids@.len() == 0,
        },
{
    if ids.len() == 0 {
        return None;
    }
    let mut best: usize = 0;
    let mut i: usize = 1;
    while i < ids.len()
        invariant
            1 <= i <= ids.len(),
            best < i,
            forall|j: int| 0 <= j < i ==> ids@[j] <= ids@[best as int],
            forall|j: int| best < j < i ==> ids@[j] < ids@[best as int],
        decreases ids.len() - i,
    {
        if ids[i] >= ids[best] {
            best = i;
        }
        i = i + 1;
    }
    Some(best)
}

/// The IDs of a list of configurations, in order.
pub open spec fn configuration_ids(s: Seq<RobotConfigurationDto>) -> Seq<i64> {
    s.map_values(|c: RobotConfigurationDto| c.id)
}

/// The list after a configuration from the server is merged in: it replaces
/// the first entry with the same ID, or is appended when none has it.
pub open spec fn upserted(s: Seq<RobotConfigurationDto>, c: RobotConfigurationDto) -> Seq<RobotConfigurationDto> {
    let ids = configuration_ids(s);
    if ids.contains(c.id) {
        s.update(choose|i: int| is_first_index_of(ids, c.id, i), c)
    } else {
        s.push(c)
    }
}

/// Merges a configuration received from the server into the list.
pub fn upsert_configuration(configs: &mut Vec<RobotConfigurationDto>, configuration: RobotConfigurationDto)
    ensures
        final(configs)@ == upserted(old(configs)@, configuration),
{
    let ghost ids = configuration_ids(configs@);
    let target = configuration.id;
    let mut i: usize = 0;
    while i < configs.len()
        invariant
            i <= configs.len(),
            configs@ == old(configs)@,
            ids == configuration_ids(old(configs)@),
            target == configuration.id,
            forall|j: int| 0 <= j < i ==> ids[j] != target,
        decreases configs.len() - i,
    {
        assert(ids[i as int] == configs@[i as int].id);
        if configs[i].id == target {
            assert(is_first_index_of(ids, target, i as int));
            assert(ids.contains(target));
            proof {
                let p = choose|p: int| is_first_index_of(ids, target, p);
                assert(is_first_index_of(ids, target, p));
                assert(p == i) by {
                    if p < i {
                        assert(ids[p] != target);
                    } else if p > i {
                        assert(ids[i as int] != target);
                    }
                }
            }
            configs.set(i, configuration);
            assert(configs@ == upserted(old(configs)@, configuration));
            return;
        }
        i = i + 1;
    }
    assert(!ids.contains(target)) by {
        if ids.contains(target) {
            let k = choose|k: int| 0 <= k < ids.len() && ids[k] == target;
            assert(ids[k] != target);
        }
    }
    configs.push(configuration);
}

/// After a configuration is merged in, the list holds it under its ID, the
/// list grows by one exactly when the ID was new, and every entry with
/// another ID is unchanged.
pub proof fn lemma_upsert_configuration(s: Seq<RobotConfigurationDto>, c: RobotConfigurationDto)
    ensures
        upserted(s, c).contains(c),
        configuration_ids(s).contains(c.id) ==> upserted(s, c).len() == s.len(),
        !configuration_ids(s).contains(c.id) ==> upserted(s, c).len() == s.len() + 1,
        forall|i: int| 0 <= i < s.len() && s[i].id != c.id ==> upserted(s, c)[i] == s[i],
{
    let ids = configuration_ids(s);
    let r = upserted(s, c);
    if ids.contains(c.id) {
        let k = choose|k: int| 0 <= k < ids.len() && ids[k] == c.id;
        let p = choose|i: int| is_first_index_of(ids, c.id, i);
        assert(exists|i: int| is_first_index_of(ids, c.id, i)) by {
            lemma_first_index_exists(ids, c.id, k);
        }
        assert(r[p] == c);
    } else {
        assert(r[s.len() as int] == c);
    }
}

/// When an ID occurs in a list, it has a first position.
proof fn lemma_first_index_exists(ids: Seq<i64>, id: i64, k: int)
    requires
        0 <= k < ids.len(),
        ids[k] == id,
    ensures
        exists|i: int| is_first_index_of(ids, id, i),
    decreases k,
{
    if exists|j: int| 0 <= j < k && ids[j] == id {
        let j = choose|j: int| 0 <= j < k && ids[j] == id;
        lemma_first_index_exists(ids, id, j);
    } else {
        assert(is_first_index_of(ids, id, k));
    }
}

// ---------------------------------------------------------------------------
// I/O display configuration, keyed by (I/O type, index)
// ---------------------------------------------------------------------------

/// The display configurations received from the server, as the map from
/// (I/O type, index) that results from entering them in order: a later
/// entry for the same port replaces an earlier one.
pub open spec fn io_config_map(s: Seq<IoDisplayConfigDto>) -> Map<(Seq<char>, i32), IoDisplayConfigDto>
    decreases s.len(),
{
    if s.len() == 0 {
        Map::empty()
    } else {
        io_config_map(s.drop_last()).insert((s.last().io_type@, s.last().io_index), s.last())
    }
}

/// Entries after position `i` that configure another port leave the map's
/// entry for `key` as it was after the first `i` entries.
proof fn lemma_io_config_suffix(s: Seq<IoDisplayConfigDto>, i: int, key: (Seq<char>, i32))
    requires
        0 <= i <= s.len(),
        forall|j: int| i <= j < s.len() ==> (s[j].io_type@, s[j].io_index) != key,
    ensures
        io_config_map(s).contains_key(key) == io_config_map(s.take(i)).contains_key(key),
        io_config_map(s).contains_key(key) ==> io_config_map(s)[key] == io_config_map(s.take(i))[key],
    decreases s.len(),
{
    if i == s.len() {
        assert(s.take(i) =~= s);
    } else {
        let t = s.drop_last();
        assert(t.take(i) =~= s.take(i));
        lemma_io_config_suffix(t, i, key);
    }
}

/// The display configuration of a port: the last one received for it.
pub fn io_config_for<'a>(configs: &'a Vec<IoDisplayConfigDto>, io_type: &str, io_index: i32) -> (r: Option<
    &'a IoDisplayConfigDto,
>)
    ensures
        match r {
            Some(c) => io_config_map(configs@).contains_key((io_type@, io_index)) && *c == io_config_map(
                configs@,
            )[(io_type@, io_index)],
            None => !io_config_map(configs@).contains_key((io_type@, io_index)),
        },
{
    let ghost key = (io_type@, io_index);
    let mut i: usize = configs.len();
    while i > 0
        invariant
            key == (io_type@, io_index),
            i <= configs.len(),
            forall|j: int| i <= j < configs@.len() ==> (configs@[j].io_type@, configs@[j].io_index) != key,
        decreases i,
    {
        let c = &configs[i - 1];
        assert(*c == configs@[i - 1]);
        let t = c.io_type.as_str();
        if c.io_index == io_index && str_equal(t, io_type) {
            proof {
                let s = configs@;
                lemma_io_config_suffix(s, i as int, key);
                let prefix = s.take(i as int);
                assert(prefix.drop_last() =~= s.take(i - 1));
                assert(prefix.last() == *c);
            }
            return Some(c);
        }
        i = i - 1;
    }
    proof {
        lemma_io_config_suffix(configs@, 0, key);
        assert(configs@.take(0) =~= Seq::<IoDisplayConfigDto>::empty());
    }
    None
}

} // verus!
