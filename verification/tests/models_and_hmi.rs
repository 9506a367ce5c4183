use fanuc_web::hmi::{
    panel_grid_style, port_label, select_hmi_widget, widget_grid_style, AlarmState, HmiPanel, HmiWidgetKind,
    IoType, WidgetType,
};
use fanuc_web::robot_models::RobotModel;

#[test]
fn robot_model_all_lists_both_models() {
    assert_eq!(RobotModel::all(), vec![RobotModel::CRX10iA, RobotModel::CRX30iA]);
}

#[test]
fn robot_model_names() {
    assert_eq!(RobotModel::CRX10iA.display_name(), "CRX-10iA (10kg, 1070mm)");
    assert_eq!(RobotModel::CRX30iA.display_name(), "CRX-30iA (30kg, 1756mm)");
    assert_eq!(RobotModel::CRX10iA.short_name(), "CRX-10iA");
    assert_eq!(RobotModel::CRX30iA.short_name(), "CRX-30iA");
    assert_eq!(RobotModel::CRX10iA.value(), "CRX-10iA");
    assert_eq!(RobotModel::CRX30iA.value(), "CRX-30iA");
    assert_eq!(RobotModel::CRX30iA.to_string(), "CRX-30iA");
}

#[test]
fn robot_model_parse_round_trip() {
    for m in RobotModel::all() {
        assert_eq!(m.value().parse::<RobotModel>(), Ok(m));
        assert_eq!(RobotModel::parse_name(m.short_name()), Ok(m));
    }
}

#[test]
fn robot_model_parse_unknown() {
    assert_eq!(
        "CRX-20iA".parse::<RobotModel>(),
        Err("Unknown robot model: CRX-20iA".to_string())
    );
    assert_eq!(RobotModel::parse_name("crx-10ia"), Err("Unknown robot model: crx-10ia".to_string()));
    assert_eq!(RobotModel::parse_name(""), Err("Unknown robot model: ".to_string()));
}

#[test]
fn robot_model_default() {
    assert_eq!(RobotModel::default(), RobotModel::CRX10iA);
}

#[test]
fn io_type_names_round_trip() {
    let all = [IoType::DIN, IoType::DOUT, IoType::AIN, IoType::AOUT, IoType::GIN, IoType::GOUT];
    let names = ["DIN", "DOUT", "AIN", "AOUT", "GIN", "GOUT"];
    for (t, n) in all.iter().zip(names.iter()) {
        assert_eq!(t.as_str(), *n);
        assert_eq!(t.to_string(), *n);
        assert_eq!(IoType::from_str(n), Some(*t));
        assert_eq!(IoType::from_str(&n.to_lowercase()), Some(*t));
    }
}

#[test]
fn io_type_from_str_ignores_case() {
    assert_eq!(IoType::from_str("din"), Some(IoType::DIN));
    assert_eq!(IoType::from_str("Aout"), Some(IoType::AOUT));
    assert_eq!(IoType::from_str("gOuT"), Some(IoType::GOUT));
    // Unicode uppercasing maps the dotless i to I.
    assert_eq!(IoType::from_str("d\u{131}n"), Some(IoType::DIN));
}

#[test]
fn io_type_from_str_rejects_others() {
    assert_eq!(IoType::from_str(""), None);
    assert_eq!(IoType::from_str("DIN "), None);
    assert_eq!(IoType::from_str("RI"), None);
    assert_eq!(IoType::from_canonical_name("din"), None);
    assert_eq!(IoType::from_canonical_name("DIN"), Some(IoType::DIN));
}

#[test]
fn io_type_classes() {
    assert!(!IoType::DIN.is_output());
    assert!(IoType::DOUT.is_output());
    assert!(!IoType::AIN.is_output());
    assert!(IoType::AOUT.is_output());
    assert!(!IoType::GIN.is_output());
    assert!(IoType::GOUT.is_output());
    assert!(IoType::AIN.is_analog() && IoType::AOUT.is_analog());
    assert!(!IoType::DIN.is_analog() && !IoType::GOUT.is_analog());
    assert!(IoType::GIN.is_group() && IoType::GOUT.is_group());
    assert!(!IoType::DOUT.is_group() && !IoType::AIN.is_group());
}

#[test]
fn widget_type_names_round_trip() {
    let all = [
        WidgetType::Auto,
        WidgetType::Button,
        WidgetType::Toggle,
        WidgetType::Led,
        WidgetType::Gauge,
        WidgetType::Slider,
        WidgetType::Bar,
        WidgetType::Numeric,
        WidgetType::MultiState,
    ];
    for w in all.iter() {
        assert_eq!(WidgetType::from_str(w.as_str()), Some(*w));
        assert_eq!(WidgetType::from_str(&w.as_str().to_uppercase()), Some(*w));
        assert_eq!(w.to_string(), w.as_str());
    }
    assert_eq!(WidgetType::MultiState.as_str(), "multi_state");
}

#[test]
fn widget_type_from_str_aliases_and_case() {
    assert_eq!(WidgetType::from_str("multistate"), Some(WidgetType::MultiState));
    assert_eq!(WidgetType::from_str("MultiState"), Some(WidgetType::MultiState));
    assert_eq!(WidgetType::from_str("LED"), Some(WidgetType::Led));
    assert_eq!(WidgetType::from_str("switch"), None);
    assert_eq!(WidgetType::from_canonical_name("LED"), None);
}

#[test]
fn defaults_of_hmi_types() {
    assert_eq!(WidgetType::default(), WidgetType::Auto);
    assert_eq!(AlarmState::default(), AlarmState::Normal);
    let p = HmiPanel::default();
    assert_eq!(p.id, 0);
    assert_eq!(p.robot_connection_id, 0);
    assert_eq!(p.name, "New Panel");
    assert_eq!(p.description, None);
    assert_eq!(p.grid_columns, 8);
    assert_eq!(p.grid_rows, 6);
    assert_eq!(p.background_color, "#1a1a1a");
    assert!(!p.is_default);
}

#[test]
fn hmi_widget_selection() {
    assert_eq!(select_hmi_widget(IoType::DIN, WidgetType::Button, true), HmiWidgetKind::Led);
    assert_eq!(select_hmi_widget(IoType::DOUT, WidgetType::Led, true), HmiWidgetKind::Led);
    assert_eq!(select_hmi_widget(IoType::DOUT, WidgetType::Auto, false), HmiWidgetKind::Button);
    assert_eq!(select_hmi_widget(IoType::AIN, WidgetType::Bar, false), HmiWidgetKind::Bar);
    assert_eq!(select_hmi_widget(IoType::AIN, WidgetType::Numeric, false), HmiWidgetKind::Numeric);
    assert_eq!(select_hmi_widget(IoType::AIN, WidgetType::Auto, false), HmiWidgetKind::Gauge);
    assert_eq!(select_hmi_widget(IoType::AOUT, WidgetType::Auto, false), HmiWidgetKind::Slider);
    assert_eq!(select_hmi_widget(IoType::AOUT, WidgetType::Slider, false), HmiWidgetKind::Slider);
    assert_eq!(select_hmi_widget(IoType::AOUT, WidgetType::Bar, false), HmiWidgetKind::Gauge);
    assert_eq!(select_hmi_widget(IoType::GIN, WidgetType::MultiState, true), HmiWidgetKind::Numeric);
    assert_eq!(select_hmi_widget(IoType::GOUT, WidgetType::Auto, true), HmiWidgetKind::MultiState);
    assert_eq!(select_hmi_widget(IoType::GOUT, WidgetType::Auto, false), HmiWidgetKind::Numeric);
}

#[test]
fn hmi_port_label() {
    assert_eq!(port_label("", IoType::DOUT, 7), "DOUT[7]");
    assert_eq!(port_label("", IoType::AIN, 0), "AIN[0]");
    assert_eq!(port_label("Gripper Open", IoType::DOUT, 7), "Gripper Open");
}

#[test]
fn hmi_grid_styles() {
    assert_eq!(
        widget_grid_style(Some(2), None, 3, 1),
        "grid-column: 3 / span 3; grid-row: 1 / span 1;"
    );
    assert_eq!(
        widget_grid_style(None, Some(9), 1, 2),
        "grid-column: 1 / span 1; grid-row: 10 / span 2;"
    );
    let p = HmiPanel::default();
    assert_eq!(
        panel_grid_style(&p),
        "display: grid; grid-template-columns: repeat(8, 1fr); grid-template-rows: repeat(6, 1fr); gap: 8px; padding: 8px;"
    );
}
