use fanuc_web::csv::{csv_preview, preview_cells, split_commas, split_lines, trim_str};
use fanuc_web::dto::newest_index;
use fanuc_web::messages::{copy_name, saved_as_notice, unsaved_changes_label};
use fanuc_web::robot_settings::{
    connection_edit, submit_configuration_form, validate_client_settings, ConfigurationForm, ConfigurationSubmit,
    DEFAULT_ROBOT_PORT, DEFAULT_SERVER_URL,
};
use fanuc_web::text::{parse_u16, starts_with};

fn lines(s: &str) -> Vec<String> {
    split_lines(s)
}

#[test]
fn lines_split_like_str_lines() {
    for text in ["", "a", "a\nb", "a\nb\n", "a\r\nb\r\n", "\n", "\n\n", "a\r", "x\r\r\ny", "a\n\nb"] {
        let expected: Vec<String> = text.lines().map(|l| l.to_string()).collect();
        assert_eq!(lines(text), expected, "text {:?}", text);
    }
}

#[test]
fn commas_split_like_str_split() {
    for text in ["", "1", "1,2,3", "1,,3", ",", "a,b,"] {
        let expected: Vec<String> = text.split(',').map(|f| f.to_string()).collect();
        assert_eq!(split_commas(text), expected, "text {:?}", text);
    }
}

#[test]
fn trim_like_str_trim() {
    for text in ["", "  ", " a ", "\t1.5\r", "\u{a0}x\u{2003}", "a b"] {
        assert_eq!(trim_str(text), text.trim(), "text {:?}", text);
    }
}

#[test]
fn csv_preview_counts_data_lines() {
    let p = csv_preview("x,y,z\n1,2,3\n4,5,6\n");
    assert_eq!(p.data_lines, 2);
    assert_eq!(p.rows, vec!["1,2,3".to_string(), "4,5,6".to_string()]);
    let p = csv_preview("");
    assert_eq!(p.data_lines, 0);
    assert!(p.rows.is_empty());
    let p = csv_preview("x,y,z");
    assert_eq!(p.data_lines, 0);
    assert!(p.rows.is_empty());
}

#[test]
fn csv_preview_shows_eight_rows() {
    let mut text = String::from("x,y,z\r\n");
    for i in 0..20 {
        text.push_str(&format!("{},{},{}\r\n", i, i + 1, i + 2));
    }
    let p = csv_preview(&text);
    assert_eq!(p.data_lines, 20);
    assert_eq!(p.rows.len(), 8);
    assert_eq!(p.rows[0], "0,1,2");
    assert_eq!(p.rows[7], "7,8,9");
}

#[test]
fn preview_cells_trim_and_fill() {
    assert_eq!(
        preview_cells(" 1.5 , 2 ,3,0"),
        ("1.5".to_string(), "2".to_string(), "3".to_string())
    );
    assert_eq!(preview_cells("7"), ("7".to_string(), "-".to_string(), "-".to_string()));
    assert_eq!(preview_cells("1,"), ("1".to_string(), "".to_string(), "-".to_string()));
}

#[test]
fn connection_edit_defaults() {
    let e = connection_edit("Cell".to_string(), "".to_string(), "10.0.0.5".to_string(), "16002");
    assert_eq!(e.name, "Cell");
    assert_eq!(e.description, None);
    assert_eq!(e.ip_address, "10.0.0.5");
    assert_eq!(e.port, 16002);
    let e = connection_edit("Cell".to_string(), "Line 2".to_string(), "10.0.0.5".to_string(), "port");
    assert_eq!(e.description, Some("Line 2".to_string()));
    assert_eq!(e.port, DEFAULT_ROBOT_PORT);
    assert_eq!(e.port, 16001);
}

fn form(name: &str, uframe: &str, utool: &str) -> ConfigurationForm {
    ConfigurationForm {
        name: name.to_string(),
        is_default: true,
        u_frame_number: uframe.to_string(),
        u_tool_number: utool.to_string(),
        front: "1".to_string(),
        up: "1".to_string(),
        left: "0".to_string(),
        flip: "x".to_string(),
        turn4: "-1".to_string(),
        turn5: "0".to_string(),
        turn6: "2".to_string(),
    }
}

#[test]
fn configuration_form_errors() {
    match submit_configuration_form(None, None, form("A", "1", "1")) {
        Err(e) => assert_eq!(e, "No robot selected"),
        Ok(_) => panic!("expected an error"),
    }
    match submit_configuration_form(Some(3), None, form("", "1", "1")) {
        Err(e) => assert_eq!(e, "Configuration name is required"),
        Ok(_) => panic!("expected an error"),
    }
}

#[test]
fn configuration_form_create_and_update() {
    match submit_configuration_form(Some(3), None, form("Weld", "2", "bad")) {
        Ok(ConfigurationSubmit::Create { robot_connection_id, fields }) => {
            assert_eq!(robot_connection_id, 3);
            assert_eq!(fields.name, "Weld");
            assert!(fields.is_default);
            assert_eq!(fields.u_frame_number, 2);
            assert_eq!(fields.u_tool_number, 0);
            assert_eq!(fields.front, 1);
            assert_eq!(fields.flip, 0);
            assert_eq!(fields.turn4, -1);
            assert_eq!(fields.turn6, 2);
        }
        _ => panic!("expected a new configuration"),
    }
    match submit_configuration_form(Some(3), Some(9), form("Weld", "2", "5")) {
        Ok(ConfigurationSubmit::Update { id, fields }) => {
            assert_eq!(id, 9);
            assert_eq!(fields.u_tool_number, 5);
        }
        _ => panic!("expected an update"),
    }
}

#[test]
fn newest_index_takes_last_largest_id() {
    assert_eq!(newest_index(&vec![]), None);
    assert_eq!(newest_index(&vec![4]), Some(0));
    assert_eq!(newest_index(&vec![1, 7, 3]), Some(1));
    assert_eq!(newest_index(&vec![7, 2, 7, 1]), Some(2));
    let ids = vec![5i64, 9, 9, -2];
    let by_std = ids.iter().enumerate().max_by_key(|(_, id)| **id).map(|(i, _)| i);
    assert_eq!(newest_index(&ids), by_std);
}

#[test]
fn program_and_configuration_labels() {
    assert_eq!(copy_name("Path A"), "Path A (copy)");
    assert_eq!(saved_as_notice("Path B"), "Program saved as 'Path B'");
    assert_eq!(unsaved_changes_label(0), "0 unsaved changes");
    assert_eq!(unsaved_changes_label(1), "1 unsaved change");
    assert_eq!(unsaved_changes_label(12), "12 unsaved changes");
}

#[test]
fn client_settings_are_checked() {
    assert_eq!(validate_client_settings("ws://127.0.0.1:9000", "16001"), Ok(16001));
    assert_eq!(validate_client_settings("wss://robot.local/ws", "+80"), Ok(80));
    assert_eq!(
        validate_client_settings("http://127.0.0.1:9000", "16001"),
        Err("❌ WebSocket URL must start with ws:// or wss://".to_string())
    );
    assert_eq!(
        validate_client_settings("ws:/", "16001"),
        Err("❌ WebSocket URL must start with ws:// or wss://".to_string())
    );
    assert_eq!(validate_client_settings("ws://x", "70000"), Err("❌ Invalid port number".to_string()));
    assert_eq!(validate_client_settings("ws://x", ""), Err("❌ Invalid port number".to_string()));
    assert_eq!(DEFAULT_SERVER_URL, "ws://127.0.0.1:9000");
}

#[test]
fn parse_u16_like_std() {
    for text in ["0", "65535", "65536", "+7", "-1", "", "+", "12a", "0042"] {
        assert_eq!(parse_u16(text), text.parse::<u16>().ok(), "text {:?}", text);
    }
    assert!(starts_with("wss://a", "wss://"));
    assert!(!starts_with("ws", "ws://"));
    assert!(starts_with("abc", ""));
}
