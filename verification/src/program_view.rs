//! The program panel of the control tab: which program it shows and how far
//! execution has come, kept in step with what the server reports, and which
//! of its buttons are offered.

use vstd::prelude::*;

verus! {

/// The program panel's state. The server is the source of truth: the panel
/// only follows what the client state reports.
pub struct ProgramDisplay {
    /// The program the panel shows.
    pub loaded_program_id: Option<i64>,
    /// Its name, once its details arrived.
    pub loaded_program_name: Option<String>,
    /// The line being executed, or -1 when none is.
    pub executing_line: i32,
    pub program_running: bool,
    pub program_paused: bool,
}

/// What the panel must do after the server's loaded program changed.
pub enum LoadedProgramSync {
    /// Nothing changed.
    Keep,
    /// A program was loaded on the server: fetch its details.
    Fetch(i64),
    /// The program was unloaded on the server: drop the program's lines.
    Clear,
}

/// The buttons the panel offers.
#[derive(Debug, Clone, Copy, PartialEq, Eq, Structural)]
pub struct ProgramControls {
    pub load: bool,
    pub run: bool,
    pub pause: bool,
    pub resume: bool,
    pub stop: bool,
    pub unload: bool,
}

/// The buttons for a panel state: Load with nothing loaded; with a program
/// loaded, Run while it is not running, Pause or Resume and Stop while it
/// runs, and Unload while it does not.
pub open spec fn controls_spec(loaded: bool, running: bool, paused: bool) -> ProgramControls {
    ProgramControls {
        load: !loaded,
        run: loaded && !running,
        pause: loaded && running && !paused,
        resume: loaded && running && paused,
        stop: loaded && running,
        unload: loaded && !running,
    }
}

impl ProgramDisplay {
    /// An empty panel.
    pub fn new() -> (r: ProgramDisplay)
        ensures
            r.loaded_program_id is None,
            r.loaded_program_name is None,
            r.executing_line == -1,
            !r.program_running,
            !r.program_paused,
    {
        ProgramDisplay {
            loaded_program_id: None,
            loaded_program_name: None,
            executing_line: -1,
            program_running: false,
            program_paused: false,
        }
    }

    /// Follows the program loaded on the server. When it differs from the
    /// panel's, a loaded program is fetched, and an unloaded one empties the
    /// panel.
    pub fn sync_loaded_program(&mut self, server_program_id: Option<i64>) -> (r: LoadedProgramSync)
        ensures
            old(self).loaded_program_id == server_program_id ==> {
                &&& r is Keep
                &&& *final(self) == *old(self)
            },
            old(self).loaded_program_id != server_program_id ==> match server_program_id {
                Some(id) => {
                    &&& r == LoadedProgramSync::Fetch(id)
                    &&& *final(self) == (ProgramDisplay { loaded_program_id: Some(id), ..*old(self) })
                },
                None => {
                    &&& r is Clear
                    &&& *final(self) == (ProgramDisplay {
                        loaded_program_id: None,
                        loaded_program_name: None,
                        executing_line: -1i32,
                        program_running: false,
                        program_paused: false,
                    })
                },
            },
    {
        if self.loaded_program_id == server_program_id {
            return LoadedProgramSync::Keep;
        }
        match server_program_id {
            Some(id) => {
                self.loaded_program_id = Some(id);
                LoadedProgramSync::Fetch(id)
            },
            None => {
                self.loaded_program_id = None;
                self.loaded_program_name = None;
                self.executing_line = -1;
                self.program_running = false;
                self.program_paused = false;
                LoadedProgramSync::Clear
            },
        }
    }

    /// Takes the name from program details that arrived, when they are the
    /// loaded program's; the caller then shows that program's lines.
    pub fn accept_program_details(&mut self, program_id: i64, name: String) -> (r: bool)
        ensures
            r == (old(self).loaded_program_id == Some(program_id)),
            r ==> *final(self) == (ProgramDisplay { loaded_program_name: Some(name), ..*old(self) }),
            !r ==> *final(self) == *old(self),
    {
        if self.loaded_program_id == Some(program_id) {
            self.loaded_program_name = Some(name);
            true
        } else {
            false
        }
    }

    /// Follows whether the program runs; when it stops, no line is
    /// executing any more.
    pub fn sync_running(&mut self, running: bool)
        ensures
            old(self).program_running == running ==> *final(self) == *old(self),
            old(self).program_running != running ==> *final(self) == (ProgramDisplay {
                program_running: running,
                executing_line: if running {
                    old(self).executing_line
                } else {
                    -1i32
                },
                ..*old(self)
            }),
    {
        if self.program_running != running {
            self.program_running = running;
            if !running {
                self.executing_line = -1;
            }
        }
    }

    /// Follows whether the program is paused.
    pub fn sync_paused(&mut self, paused: bool)
        ensures
            *final(self) == (ProgramDisplay { program_paused: paused, ..*old(self) }),
    {
        self.program_paused = paused;
    }

    /// Follows the line being executed, when the server reports one (a line
    /// number past `i32::MAX` wraps, as a cast does).
    pub fn sync_executing_line(&mut self, line: Option<usize>)
        ensures
            match line {
                Some(l) => *final(self) == (ProgramDisplay { executing_line: l as i32, ..*old(self) }),
                None => *final(self) == *old(self),
            },
    {
        if let Some(l) = line {
            self.executing_line = l as i32;
        }
    }

    /// The buttons the panel offers now.
    pub fn controls(&self) -> (r: ProgramControls)
        ensures
            r == controls_spec(self.loaded_program_id is Some, self.program_running, self.program_paused),
    {
        let loaded = self.loaded_program_id.is_some();
        ProgramControls {
            load: !loaded,
            run: loaded && !self.program_running,
            pause: loaded && self.program_running && !self.program_paused,
            resume: loaded && self.program_running && self.program_paused,
            stop: loaded && self.program_running,
            unload: loaded && !self.program_running,
        }
    }
}

/// The buttons never contradict each other: Load only with nothing loaded,
/// Run and Stop never together, Pause and Resume never together, Unload
/// never while the program runs, and with a program loaded there is always
/// a way to start or to stop it.
pub proof fn lemma_controls_consistent(loaded: bool, running: bool, paused: bool)
    ensures
        controls_spec(loaded, running, paused).load ==> !loaded,
        !(controls_spec(loaded, running, paused).run && controls_spec(loaded, running, paused).stop),
        !(controls_spec(loaded, running, paused).pause && controls_spec(loaded, running, paused).resume),
        controls_spec(loaded, running, paused).unload ==> !running,
        loaded ==> (controls_spec(loaded, running, paused).run || controls_spec(loaded, running, paused).stop),
{
}

} // verus!
