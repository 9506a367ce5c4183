//! HMI panel types: the I/O types, widget types and alarm states, the panel
//! layout, and the choices a panel makes when it lays out and renders ports.

use vstd::prelude::*;
use vstd::string::*;
use crate::text::{
    all_ascii, ascii_lower, ascii_upper, decimal, push_decimal, str_equal, str_to_lowercase,
    str_to_uppercase, unicode_lowercase, unicode_uppercase,
};

verus! {

/// I/O type enumeration for all digital, analog, and group I/O.
#[derive(Debug, Clone, Copy, PartialEq, Eq, Hash, Structural)]
pub enum IoType {
    DIN,
    DOUT,
    AIN,
    AOUT,
    GIN,
    GOUT,
}

/// The storage name of an I/O type.
pub open spec fn io_type_name(t: IoType) -> Seq<char> {
    match t {
        IoType::DIN => "DIN"@,
        IoType::DOUT => "DOUT"@,
        IoType::AIN => "AIN"@,
        IoType::AOUT => "AOUT"@,
        IoType::GIN => "GIN"@,
        IoType::GOUT => "GOUT"@,
    }
}

/// The I/O type whose storage name is exactly `t`.
pub open spec fn io_type_from_name(t: Seq<char>) -> Option<IoType> {
    if t == "DIN"@ {
        Some(IoType::DIN)
    } else if t == "DOUT"@ {
        Some(IoType::DOUT)
    } else if t == "AIN"@ {
        Some(IoType::AIN)
    } else if t == "AOUT"@ {
        Some(IoType::AOUT)
    } else if t == "GIN"@ {
        Some(IoType::GIN)
    } else if t == "GOUT"@ {
        Some(IoType::GOUT)
    } else {
        None
    }
}

/// Output types can be written to.
pub open spec fn io_type_is_output(t: IoType) -> bool {
    t == IoType::DOUT || t == IoType::AOUT || t == IoType::GOUT
}

/// Analog types carry a real value.
pub open spec fn io_type_is_analog(t: IoType) -> bool {
    t == IoType::AIN || t == IoType::AOUT
}

/// Group types carry a multi-bit integer.
pub open spec fn io_type_is_group(t: IoType) -> bool {
    t == IoType::GIN || t == IoType::GOUT
}

impl IoType {
    /// String representation for database storage.
    pub fn as_str(&self) -> (r: &'static str)
        ensures
            r@ == io_type_name(*self),
    {
        match self {
            IoType::DIN => "DIN",
            IoType::DOUT => "DOUT",
            IoType::AIN => "AIN",
            IoType::AOUT => "AOUT",
            IoType::GIN => "GIN",
            IoType::GOUT => "GOUT",
        }
    }

    /// The I/O type whose storage name is exactly `t` (no case folding).
    pub fn from_canonical_name(t: &str) -> (r: Option<IoType>)
        ensures
            r == io_type_from_name(t@),
    {
        if str_equal(t, "DIN") {
            Some(IoType::DIN)
        } else if str_equal(t, "DOUT") {
            Some(IoType::DOUT)
        } else if str_equal(t, "AIN") {
            Some(IoType::AIN)
        } else if str_equal(t, "AOUT") {
            Some(IoType::AOUT)
        } else if str_equal(t, "GIN") {
            Some(IoType::GIN)
        } else if str_equal(t, "GOUT") {
            Some(IoType::GOUT)
        } else {
            None
        }
    }

    /// Parses an I/O type from its name, ignoring case: the text is
    /// uppercased (Unicode rules, as `str::to_uppercase` does) and then
    /// compared with the storage names.
    pub fn from_str(s: &str) -> (r: Option<IoType>)
        ensures
            r == io_type_from_name(unicode_uppercase(s@)),
            all_ascii(s@) ==> r == io_type_from_name(s@.map_values(|c: char| ascii_upper(c))),
    {
        let up = str_to_uppercase(s);
        IoType::from_canonical_name(up.as_str())
    }

    /// True if this is an output type (can be written to).
    pub fn is_output(&self) -> (r: bool)
        ensures
            r == io_type_is_output(*self),
    {
        match self {
            IoType::DOUT | IoType::AOUT | IoType::GOUT => true,
            _ => false,
        }
    }

    /// True if this is an analog type.
    pub fn is_analog(&self) -> (r: bool)
        ensures
            r == io_type_is_analog(*self),
    {
        match self {
            IoType::AIN | IoType::AOUT => true,
            _ => false,
        }
    }

    /// True if this is a group type.
    pub fn is_group(&self) -> (r: bool)
        ensures
            r == io_type_is_group(*self),
    {
        match self {
            IoType::GIN | IoType::GOUT => true,
            _ => false,
        }
    }

    /// The text that displaying an I/O type shows: its storage name.
    pub fn to_string(&self) -> (r: String)
        ensures
            r@ == io_type_name(*self),
    {
        String::from_str(self.as_str())
    }
}

/// Widget type for I/O display in HMI panels.
#[derive(Debug, Clone, Copy, PartialEq, Eq, Structural)]
pub enum WidgetType {
    /// System chooses based on I/O type.
    Auto,
    /// Momentary push button (for DOUT).
    Button,
    /// Toggle switch (for DOUT).
    Toggle,
    /// LED indicator (for DIN).
    Led,
    /// Circular gauge (for AIN/AOUT).
    Gauge,
    /// Linear slider (for AOUT).
    Slider,
    /// Horizontal/vertical bar graph (for AIN/AOUT).
    Bar,
    /// Numeric display with unit.
    Numeric,
    /// Multi-state indicator (for GIN/GOUT).
    MultiState,
}

/// The storage name of a widget type.
pub open spec fn widget_type_name(w: WidgetType) -> Seq<char> {
    match w {
        WidgetType::Auto => "auto"@,
        WidgetType::Button => "button"@,
        WidgetType::Toggle => "toggle"@,
        WidgetType::Led => "led"@,
        WidgetType::Gauge => "gauge"@,
        WidgetType::Slider => "slider"@,
        WidgetType::Bar => "bar"@,
        WidgetType::Numeric => "numeric"@,
        WidgetType::MultiState => "multi_state"@,
    }
}

/// The widget type named exactly `t`; `multistate` is accepted beside
/// `multi_state`.
pub open spec fn widget_type_from_name(t: Seq<char>) -> Option<WidgetType> {
    if t == "auto"@ {
        Some(WidgetType::Auto)
    } else if t == "button"@ {
        Some(WidgetType::Button)
    } else if t == "toggle"@ {
        Some(WidgetType::Toggle)
    } else if t == "led"@ {
        Some(WidgetType::Led)
    } else if t == "gauge"@ {
        Some(WidgetType::Gauge)
    } else if t == "slider"@ {
        Some(WidgetType::Slider)
    } else if t == "bar"@ {
        Some(WidgetType::Bar)
    } else if t == "numeric"@ {
        Some(WidgetType::Numeric)
    } else if t == "multi_state"@ || t == "multistate"@ {
        Some(WidgetType::MultiState)
    } else {
        None
    }
}

impl WidgetType {
    /// String representation for storage.
    pub fn as_str(&self) -> (r: &'static str)
        ensures
            r@ == widget_type_name(*self),
    {
        match self {
            WidgetType::Auto => "auto",
            WidgetType::Button => "button",
            WidgetType::Toggle => "toggle",
            WidgetType::Led => "led",
            WidgetType::Gauge => "gauge",
            WidgetType::Slider => "slider",
            WidgetType::Bar => "bar",
            WidgetType::Numeric => "numeric",
            WidgetType::MultiState => "multi_state",
        }
    }

    /// The widget type named exactly `t` (no case folding).
    pub fn from_canonical_name(t: &str) -> (r: Option<WidgetType>)
        ensures
            r == widget_type_from_name(t@),
    {
        if str_equal(t, "auto") {
            Some(WidgetType::Auto)
        } else if str_equal(t, "button") {
            Some(WidgetType::Button)
        } else if str_equal(t, "toggle") {
            Some(WidgetType::Toggle)
        } else if str_equal(t, "led") {
            Some(WidgetType::Led)
        } else if str_equal(t, "gauge") {
            Some(WidgetType::Gauge)
        } else if str_equal(t, "slider") {
            Some(WidgetType::Slider)
        } else if str_equal(t, "bar") {
            Some(WidgetType::Bar)
        } else if str_equal(t, "numeric") {
            Some(WidgetType::Numeric)
        } else if str_equal(t, "multi_state") || str_equal(t, "multistate") {
            Some(WidgetType::MultiState)
        } else {
            None
        }
    }

    /// Parses a widget type from its name, ignoring case: the text is
    /// lowercased (Unicode rules, as `str::to_lowercase` does) and then
    /// compared with the storage names.
    pub fn from_str(s: &str) -> (r: Option<WidgetType>)
        ensures
            r == widget_type_from_name(unicode_lowercase(s@)),
            all_ascii(s@) ==> r == widget_type_from_name(s@.map_values(|c: char| ascii_lower(c))),
    {
        let low = str_to_lowercase(s);
        WidgetType::from_canonical_name(low.as_str())
    }

    /// The text that displaying a widget type shows: its storage name.
    pub fn to_string(&self) -> (r: String)
        ensures
            r@ == widget_type_name(*self),
    {
        String::from_str(self.as_str())
    }
}

impl Default for WidgetType {
    fn default() -> (r: Self)
        ensures
            r == WidgetType::Auto,
    {
        WidgetType::Auto
    }
}

/// Alarm state for threshold checking.
#[derive(Debug, Clone, Copy, PartialEq, Eq, Structural)]
pub enum AlarmState {
    Normal,
    Warning,
    Alarm,
}

impl Default for AlarmState {
    fn default() -> (r: Self)
        ensures
            r == AlarmState::Normal,
    {
        AlarmState::Normal
    }
}

/// HMI Panel configuration.
#[derive(Debug)]
pub struct HmiPanel {
    /// Panel ID.
    pub id: i64,
    /// Robot connection this panel belongs to.
    pub robot_connection_id: i64,
    /// Panel name (e.g., "Gripper Control", "Conveyor Status").
    pub name: String,
    /// Panel description.
    pub description: Option<String>,
    /// Number of columns in the grid.
    pub grid_columns: u16,
    /// Number of rows in the grid.
    pub grid_rows: u16,
    /// Background color (CSS color string).
    pub background_color: String,
    /// Whether this is the default panel for the robot.
    pub is_default: bool,
}

impl Default for HmiPanel {
    fn default() -> (r: Self)
        ensures
            r.id == 0,
            r.robot_connection_id == 0,
            r.name@ == "New Panel"@,
            r.description.is_none(),
            r.grid_columns == 8,
            r.grid_rows == 6,
            r.background_color@ == "#1a1a1a"@,
            !r.is_default,
    {
        HmiPanel {
            id: 0,
            robot_connection_id: 0,
            name: String::from_str("New Panel"),
            description: None,
            grid_columns: 8,
            grid_rows: 6,
            background_color: String::from_str("#1a1a1a"),
            is_default: false,
        }
    }
}

/// The widget that an HMI panel draws for a port.
#[derive(Debug, Clone, Copy, PartialEq, Eq, Structural)]
pub enum HmiWidgetKind {
    /// Read-only on/off indicator.
    Led,
    /// Push button that writes a digital output.
    Button,
    /// Bar graph of an analog value.
    Bar,
    /// Numeric read-out.
    Numeric,
    /// Circular gauge of an analog value.
    Gauge,
    /// Slider that writes an analog output.
    Slider,
    /// Selector that writes a group output.
    MultiState,
}

/// Which widget a port gets, from its I/O type, its configured widget type
/// and whether this client holds control of the robot.
pub open spec fn hmi_widget_for(io_type: IoType, widget: WidgetType, has_control: bool) -> HmiWidgetKind {
    match io_type {
        IoType::DIN => HmiWidgetKind::Led,
        IoType::DOUT => if widget == WidgetType::Led {
            HmiWidgetKind::Led
        } else {
            HmiWidgetKind::Button
        },
        IoType::AIN => if widget == WidgetType::Bar {
            HmiWidgetKind::Bar
        } else if widget == WidgetType::Numeric {
            HmiWidgetKind::Numeric
        } else {
            HmiWidgetKind::Gauge
        },
        IoType::AOUT => if widget == WidgetType::Slider || widget == WidgetType::Auto {
            HmiWidgetKind::Slider
        } else {
            HmiWidgetKind::Gauge
        },
        IoType::GIN => HmiWidgetKind::Numeric,
        IoType::GOUT => if has_control {
            HmiWidgetKind::MultiState
        } else {
            HmiWidgetKind::Numeric
        },
    }
}

/// Chooses the widget for a port: inputs are read-only displays, digital
/// outputs a button unless an LED is asked for, analog outputs a slider
/// unless another display is asked for, group outputs a selector only while
/// this client holds control.
pub fn select_hmi_widget(io_type: IoType, widget: WidgetType, has_control: bool) -> (r: HmiWidgetKind)
    ensures
        r == hmi_widget_for(io_type, widget, has_control),
{
    match io_type {
        IoType::DIN => HmiWidgetKind::Led,
        IoType::DOUT => match widget {
            WidgetType::Led => HmiWidgetKind::Led,
            _ => HmiWidgetKind::Button,
        },
        IoType::AIN => match widget {
            WidgetType::Bar => HmiWidgetKind::Bar,
            WidgetType::Numeric => HmiWidgetKind::Numeric,
            _ => HmiWidgetKind::Gauge,
        },
        IoType::AOUT => match widget {
            WidgetType::Slider | WidgetType::Auto => HmiWidgetKind::Slider,
            _ => HmiWidgetKind::Gauge,
        },
        IoType::GIN => HmiWidgetKind::Numeric,
        IoType::GOUT => if has_control {
            HmiWidgetKind::MultiState
        } else {
            HmiWidgetKind::Numeric
        },
    }
}

/// Whether a widget writes to the robot when used.
pub open spec fn widget_writes(k: HmiWidgetKind) -> bool {
    k == HmiWidgetKind::Button || k == HmiWidgetKind::Slider || k == HmiWidgetKind::MultiState
}

/// The label a port shows: its display name, or `TYPE[index]` when the
/// display name is empty.
pub open spec fn port_label_spec(display_name: Seq<char>, io_type: IoType, io_index: u16) -> Seq<char> {
    if display_name.len() == 0 {
        io_type_name(io_type) + "["@ + decimal(io_index as nat) + "]"@
    } else {
        display_name
    }
}

/// The label of a port on an HMI panel.
pub fn port_label(display_name: &str, io_type: IoType, io_index: u16) -> (r: String)
    ensures
        r@ == port_label_spec(display_name@, io_type, io_index),
{
    if display_name.unicode_len() == 0 {
        let mut s = String::from_str(io_type.as_str());
        s.append("[");
        push_decimal(&mut s, io_index as u64);
        s.append("]");
        s
    } else {
        String::from_str(display_name)
    }
}

/// The 1-based grid line of a 0-based stored position; an unset position
/// is line 1.
pub open spec fn grid_line(pos: Option<u16>) -> nat {
    match pos {
        Some(p) => (p + 1) as nat,
        None => 1,
    }
}

/// The CSS that places a port widget on the panel grid.
pub open spec fn widget_grid_style_spec(x: Option<u16>, y: Option<u16>, width: u16, height: u16) -> Seq<char> {
    "grid-column: "@ + decimal(grid_line(x)) + " / span "@ + decimal(width as nat) + "; grid-row: "@
        + decimal(grid_line(y)) + " / span "@ + decimal(height as nat) + ";"@
}

/// Computes the CSS grid placement of a port widget. A stored position of
/// `u16::MAX` has no next grid line and is left out.
pub fn widget_grid_style(x: Option<u16>, y: Option<u16>, width: u16, height: u16) -> (r: String)
    requires
        x matches Some(v) ==> v < u16::MAX,
        y matches Some(v) ==> v < u16::MAX,
    ensures
        r@ == widget_grid_style_spec(x, y, width, height),
{
    let col: u16 = match x {
        Some(v) => v + 1,
        None => 1,
    };
    let row: u16 = match y {
        Some(v) => v + 1,
        None => 1,
    };
    let mut s = String::from_str("grid-column: ");
    push_decimal(&mut s, col as u64);
    s.append(" / span ");
    push_decimal(&mut s, width as u64);
    s.append("; grid-row: ");
    push_decimal(&mut s, row as u64);
    s.append(" / span ");
    push_decimal(&mut s, height as u64);
    s.append(";");
    assert(s@ =~= widget_grid_style_spec(x, y, width, height));
    s
}

/// The CSS of a panel's grid container.
pub open spec fn panel_grid_style_spec(columns: u16, rows: u16) -> Seq<char> {
    "display: grid; grid-template-columns: repeat("@ + decimal(columns as nat)
        + ", 1fr); grid-template-rows: repeat("@ + decimal(rows as nat) + ", 1fr); gap: 8px; padding: 8px;"@
}

/// Computes the CSS grid of a panel from its column and row counts.
pub fn panel_grid_style(panel: &HmiPanel) -> (r: String)
    ensures
        r@ == panel_grid_style_spec(panel.grid_columns, panel.grid_rows),
{
    let mut s = String::from_str("display: grid; grid-template-columns: repeat(");
    push_decimal(&mut s, panel.grid_columns as u64);
    s.append(", 1fr); grid-template-rows: repeat(");
    push_decimal(&mut s, panel.grid_rows as u64);
    s.append(", 1fr); gap: 8px; padding: 8px;");
    assert(s@ =~= panel_grid_style_spec(panel.grid_columns, panel.grid_rows));
    s
}

// ---------------------------------------------------------------------------
// Laws
// ---------------------------------------------------------------------------

/// Each I/O type is found again under its own storage name.
proof fn lemma_io_type_from_own_name(t: IoType)
    ensures
        io_type_from_name(io_type_name(t)) == Some(t),
{
    reveal_strlit("DIN");
    reveal_strlit("DOUT");
    reveal_strlit("AIN");
    reveal_strlit("AOUT");
    reveal_strlit("GIN");
    reveal_strlit("GOUT");
    let n = io_type_name(t);
    match t {
        IoType::DIN => {},
        IoType::DOUT => {
            assert(n.len() != "DIN"@.len());
        },
        IoType::AIN => {
            assert(n[0] != "DIN"@[0]);
            assert(n.len() != "DOUT"@.len());
        },
        IoType::AOUT => {
            assert(n.len() != "DIN"@.len());
            assert(n[0] != "DOUT"@[0]);
            assert(n.len() != "AIN"@.len());
        },
        IoType::GIN => {
            assert(n[0] != "DIN"@[0]);
            assert(n.len() != "DOUT"@.len());
            assert(n[0] != "AIN"@[0]);
            assert(n.len() != "AOUT"@.len());
        },
        IoType::GOUT => {
            assert(n.len() != "DIN"@.len());
            assert(n[0] != "DOUT"@[0]);
            assert(n.len() != "AIN"@.len());
            assert(n[0] != "AOUT"@[0]);
            assert(n.len() != "GIN"@.len());
        },
    }
}

/// Parsing the storage name of an I/O type gives it back, in upper or lower
/// case, and no two I/O types share a name.
pub proof fn lemma_io_type_name_round_trip(t: IoType, u: IoType)
    ensures
        all_ascii(io_type_name(t)),
        io_type_from_name(io_type_name(t).map_values(|c: char| ascii_upper(c))) == Some(t),
        all_ascii(io_type_name(t).map_values(|c: char| ascii_lower(c))),
        io_type_from_name(
            io_type_name(t).map_values(|c: char| ascii_lower(c)).map_values(|c: char| ascii_upper(c)),
        ) == Some(t),
        io_type_name(t) == io_type_name(u) ==> t == u,
{
    reveal_strlit("DIN");
    reveal_strlit("DOUT");
    reveal_strlit("AIN");
    reveal_strlit("AOUT");
    reveal_strlit("GIN");
    reveal_strlit("GOUT");
    let n = io_type_name(t);
    let up = n.map_values(|c: char| ascii_upper(c));
    let low = n.map_values(|c: char| ascii_lower(c));
    let back = low.map_values(|c: char| ascii_upper(c));
    assert(up =~= n);
    assert(back =~= n);
    lemma_io_type_from_own_name(t);
    lemma_io_type_from_own_name(u);
}

/// Each widget type is found again under its own storage name.
proof fn lemma_widget_type_from_own_name(w: WidgetType)
    ensures
        widget_type_from_name(widget_type_name(w)) == Some(w),
{
    reveal_strlit("auto");
    reveal_strlit("button");
    reveal_strlit("toggle");
    reveal_strlit("led");
    reveal_strlit("gauge");
    reveal_strlit("slider");
    reveal_strlit("bar");
    reveal_strlit("numeric");
    reveal_strlit("multi_state");
    let n = widget_type_name(w);
    assert(n.len() != "auto"@.len() || n[0] != "auto"@[0] || w == WidgetType::Auto);
    assert(n.len() != "button"@.len() || n[0] != "button"@[0] || w == WidgetType::Button);
    assert(n.len() != "toggle"@.len() || n[0] != "toggle"@[0] || w == WidgetType::Toggle);
    assert(n.len() != "led"@.len() || n[0] != "led"@[0] || w == WidgetType::Led);
    assert(n.len() != "gauge"@.len() || n[0] != "gauge"@[0] || w == WidgetType::Gauge);
    assert(n.len() != "slider"@.len() || n[0] != "slider"@[0] || w == WidgetType::Slider);
    assert(n.len() != "bar"@.len() || n[0] != "bar"@[0] || w == WidgetType::Bar);
    assert(n.len() != "numeric"@.len() || n[0] != "numeric"@[0] || w == WidgetType::Numeric);
}

/// Parsing the storage name of a widget type gives it back, in lower or
/// upper case, and no two widget types share a name.
pub proof fn lemma_widget_type_name_round_trip(w: WidgetType, v: WidgetType)
    ensures
        all_ascii(widget_type_name(w)),
        widget_type_from_name(widget_type_name(w).map_values(|c: char| ascii_lower(c))) == Some(w),
        all_ascii(widget_type_name(w).map_values(|c: char| ascii_upper(c))),
        widget_type_from_name(
            widget_type_name(w).map_values(|c: char| ascii_upper(c)).map_values(|c: char| ascii_lower(c)),
        ) == Some(w),
        widget_type_name(w) == widget_type_name(v) ==> w == v,
{
    reveal_strlit("auto");
    reveal_strlit("button");
    reveal_strlit("toggle");
    reveal_strlit("led");
    reveal_strlit("gauge");
    reveal_strlit("slider");
    reveal_strlit("bar");
    reveal_strlit("numeric");
    reveal_strlit("multi_state");
    reveal_strlit("multistate");
    let n = widget_type_name(w);
    let low = n.map_values(|c: char| ascii_lower(c));
    let up = n.map_values(|c: char| ascii_upper(c));
    let back = up.map_values(|c: char| ascii_lower(c));
    assert(low =~= n);
    assert(back =~= n);
    lemma_widget_type_from_own_name(w);
    lemma_widget_type_from_own_name(v);
}

/// Exactly one of digital, analog and group holds of each I/O type, and a
/// widget that writes to the robot is only chosen for an output port.
pub proof fn lemma_io_type_classes(t: IoType, w: WidgetType, has_control: bool)
    ensures
        io_type_is_analog(t) ==> !io_type_is_group(t),
        io_type_is_output(t) <==> (t == IoType::DOUT || t == IoType::AOUT || t == IoType::GOUT),
        widget_writes(hmi_widget_for(t, w, has_control)) ==> io_type_is_output(t),
        hmi_widget_for(t, w, has_control) == HmiWidgetKind::MultiState ==> has_control,
{
}


/// A digital output is drawn as an LED exactly when an LED is configured;
/// any other widget type gives the button that writes the output, whether
/// or not the session has control.
pub proof fn lemma_digital_output_widget(w: WidgetType, has_control: bool)
    ensures
        hmi_widget_for(IoType::DOUT, w, has_control) == HmiWidgetKind::Led <==> w == WidgetType::Led,
        w != WidgetType::Led ==> hmi_widget_for(IoType::DOUT, w, has_control) == HmiWidgetKind::Button,
        w != WidgetType::Led ==> widget_writes(hmi_widget_for(IoType::DOUT, w, has_control)),
        hmi_widget_for(IoType::DIN, w, has_control) == HmiWidgetKind::Led,
{
}

} // verus!
