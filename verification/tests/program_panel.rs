use fanuc_web::program_view::{LoadedProgramSync, ProgramControls, ProgramDisplay};

#[test]
fn panel_follows_loaded_program() {
    let mut p = ProgramDisplay::new();
    assert!(matches!(p.sync_loaded_program(None), LoadedProgramSync::Keep));
    assert!(matches!(p.sync_loaded_program(Some(5)), LoadedProgramSync::Fetch(5)));
    assert_eq!(p.loaded_program_id, Some(5));
    assert!(matches!(p.sync_loaded_program(Some(5)), LoadedProgramSync::Keep));
    assert!(!p.accept_program_details(6, "Other".to_string()));
    assert_eq!(p.loaded_program_name, None);
    assert!(p.accept_program_details(5, "Weld path".to_string()));
    assert_eq!(p.loaded_program_name, Some("Weld path".to_string()));
    p.sync_running(true);
    p.sync_executing_line(Some(12));
    assert_eq!(p.executing_line, 12);
    assert!(matches!(p.sync_loaded_program(None), LoadedProgramSync::Clear));
    assert_eq!(p.loaded_program_id, None);
    assert_eq!(p.loaded_program_name, None);
    assert_eq!(p.executing_line, -1);
    assert!(!p.program_running);
}

#[test]
fn stopping_clears_the_executing_line() {
    let mut p = ProgramDisplay::new();
    p.sync_loaded_program(Some(1));
    p.sync_running(true);
    p.sync_executing_line(Some(3));
    p.sync_executing_line(None);
    assert_eq!(p.executing_line, 3);
    p.sync_running(true);
    assert_eq!(p.executing_line, 3);
    p.sync_running(false);
    assert_eq!(p.executing_line, -1);
}

#[test]
fn buttons_follow_the_state() {
    let mut p = ProgramDisplay::new();
    assert_eq!(
        p.controls(),
        ProgramControls { load: true, run: false, pause: false, resume: false, stop: false, unload: false }
    );
    p.sync_loaded_program(Some(1));
    assert_eq!(
        p.controls(),
        ProgramControls { load: false, run: true, pause: false, resume: false, stop: false, unload: true }
    );
    p.sync_running(true);
    assert_eq!(
        p.controls(),
        ProgramControls { load: false, run: false, pause: true, resume: false, stop: true, unload: false }
    );
    p.sync_paused(true);
    assert_eq!(
        p.controls(),
        ProgramControls { load: false, run: false, pause: false, resume: true, stop: true, unload: false }
    );
}
