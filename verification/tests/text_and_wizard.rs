use fanuc_web::text::{decimal_string, is_blank, parse_i32, parse_u32, str_equal};
use fanuc_web::wizard::{
    default_configuration, header_steps, validate_connection_details, validate_default_configuration,
    ConfigurationNumbers, StepBadge, WizardStep,
};

#[test]
fn decimal_rendering() {
    assert_eq!(decimal_string(0), "0");
    assert_eq!(decimal_string(7), "7");
    assert_eq!(decimal_string(16001), "16001");
    assert_eq!(decimal_string(u64::MAX), u64::MAX.to_string());
}

#[test]
fn parse_u32_matches_std() {
    for s in ["0", "16001", "+5", "4294967295", "4294967296", "", "+", "-1", "-0", " 1", "1 ", "12a", "٣", "00042"] {
        assert_eq!(parse_u32(s), s.parse::<u32>().ok(), "input {:?}", s);
    }
}

#[test]
fn parse_i32_matches_std() {
    for s in [
        "0", "-0", "+0", "9", "-2147483648", "2147483647", "2147483648", "-2147483649", "", "-", "+", "--1", "1-",
        " 3", "7 ", "x",
    ] {
        assert_eq!(parse_i32(s), s.parse::<i32>().ok(), "input {:?}", s);
    }
}

#[test]
fn decimal_parse_round_trip() {
    for n in [0u32, 1, 9, 10, 65535, 4294967295] {
        assert_eq!(parse_u32(&decimal_string(n as u64)), Some(n));
    }
}

#[test]
fn blank_and_equal() {
    assert!(is_blank(""));
    assert!(is_blank(" \t\n\r"));
    assert!(is_blank("\u{a0}\u{2003}"));
    assert!(!is_blank(" x "));
    assert!(str_equal("abc", "abc"));
    assert!(!str_equal("abc", "abd"));
    assert!(!str_equal("abc", "ab"));
}

#[test]
fn wizard_steps() {
    let steps = [
        WizardStep::ConnectionDetails,
        WizardStep::MotionDefaults,
        WizardStep::JogDefaults,
        WizardStep::DefaultConfiguration,
        WizardStep::AdditionalConfigurations,
    ];
    for (i, s) in steps.iter().enumerate() {
        assert_eq!(s.step_number(), i + 1);
    }
    assert_eq!(WizardStep::ConnectionDetails.title(), "Connection Details");
    assert_eq!(WizardStep::AdditionalConfigurations.title(), "Additional Configurations");
    assert_eq!(
        WizardStep::DefaultConfiguration.description(),
        "Create the default configuration (required)"
    );
    assert_eq!(header_steps().len(), 4);
}

#[test]
fn wizard_navigation() {
    assert_eq!(WizardStep::ConnectionDetails.next(), WizardStep::MotionDefaults);
    assert_eq!(WizardStep::DefaultConfiguration.next(), WizardStep::AdditionalConfigurations);
    assert_eq!(WizardStep::AdditionalConfigurations.next(), WizardStep::AdditionalConfigurations);
    assert_eq!(WizardStep::ConnectionDetails.previous(), WizardStep::ConnectionDetails);
    assert_eq!(WizardStep::JogDefaults.previous(), WizardStep::MotionDefaults);
    assert_eq!(WizardStep::JogDefaults.next().previous(), WizardStep::JogDefaults);
    assert!(!WizardStep::ConnectionDetails.can_go_back());
    assert!(WizardStep::MotionDefaults.can_go_back());
    assert!(!WizardStep::AdditionalConfigurations.can_go_next());
    assert!(WizardStep::DefaultConfiguration.is_last_required_step());
    assert!(!WizardStep::JogDefaults.is_last_required_step());
    let cur = WizardStep::JogDefaults;
    assert_eq!(cur.badge_for(WizardStep::ConnectionDetails), StepBadge::Completed);
    assert_eq!(cur.badge_for(WizardStep::JogDefaults), StepBadge::Current);
    assert_eq!(cur.badge_for(WizardStep::DefaultConfiguration), StepBadge::Pending);
}

#[test]
fn connection_step_checks() {
    assert_eq!(validate_connection_details("Cell 1", "127.0.0.1", "16001"), Ok(16001));
    assert_eq!(validate_connection_details("  ", "127.0.0.1", "16001"), Err("Robot name is required".to_string()));
    assert_eq!(validate_connection_details("Cell 1", "", "16001"), Err("IP address is required".to_string()));
    assert_eq!(validate_connection_details("Cell 1", "10.0.0.2", "port"), Err("Invalid port number".to_string()));
    assert_eq!(validate_connection_details("Cell 1", "10.0.0.2", "-1"), Err("Invalid port number".to_string()));
}

#[test]
fn configuration_step_checks() {
    let ok = validate_default_configuration("Default", "0", "1", "0", "-1", "1");
    assert_eq!(
        ok,
        Ok(ConfigurationNumbers { u_frame_number: 0, u_tool_number: 1, turn4: 0, turn5: -1, turn6: 1 })
    );
    assert_eq!(
        validate_default_configuration("\t", "0", "1", "0", "0", "0"),
        Err("Configuration name is required".to_string())
    );
    assert_eq!(validate_default_configuration("D", "x", "1", "0", "0", "0"), Err("Invalid UFrame number".to_string()));
    assert_eq!(
        validate_default_configuration("D", "10", "1", "0", "0", "0"),
        Err("UFrame must be between 0 and 9".to_string())
    );
    assert_eq!(validate_default_configuration("D", "9", "", "0", "0", "0"), Err("Invalid UTool number".to_string()));
    assert_eq!(
        validate_default_configuration("D", "9", "0", "0", "0", "0"),
        Err("UTool must be between 1 and 10 (Tool 0 is invalid)".to_string())
    );
    assert_eq!(validate_default_configuration("D", "9", "10", "a", "0", "0"), Err("Invalid Turn 4 value".to_string()));
    assert_eq!(validate_default_configuration("D", "9", "10", "0", "a", "0"), Err("Invalid Turn 5 value".to_string()));
    assert_eq!(validate_default_configuration("D", "9", "10", "0", "0", "a"), Err("Invalid Turn 6 value".to_string()));
}

#[test]
fn wizard_default_configuration_record() {
    let n = ConfigurationNumbers { u_frame_number: 2, u_tool_number: 3, turn4: 0, turn5: 1, turn6: -1 };
    let c = default_configuration("Default".to_string(), n, 1, 1, 0, 0);
    assert_eq!(c.name, "Default");
    assert!(c.is_default);
    assert_eq!((c.u_frame_number, c.u_tool_number), (2, 3));
    assert_eq!((c.front, c.up, c.left, c.flip), (1, 1, 0, 0));
    assert_eq!((c.turn4, c.turn5, c.turn6), (0, 1, -1));
}
