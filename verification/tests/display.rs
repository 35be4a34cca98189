use wine_sandbox::display::{Display, DisplayError};

#[test]
fn test_valid_display_with_hostname() {
    let display_str = "localhost:0.0";
    let display = Display::from_str(display_str).expect("failed to parse display");
    assert_eq!(display.hostname, Some("localhost".to_string()));
    assert_eq!(display.display_number, 0);
    assert_eq!(display.screen_number, Some(0));
    assert_eq!(display.get_socket_path(), "/tmp/.X11-unix/X0");
}

#[test]
fn test_valid_display_without_hostname() {
    let display_str = ":1.2";
    let display = Display::from_str(display_str).expect("failed to parse display");
    assert_eq!(display.hostname, None);
    assert_eq!(display.display_number, 1);
    assert_eq!(display.screen_number, Some(2));
    assert_eq!(display.get_socket_path(), "/tmp/.X11-unix/X1");
}

#[test]
fn test_display_without_screen_number() {
    let display_str = ":2";
    let display = Display::from_str(display_str).expect("failed to parse display");
    assert_eq!(display.hostname, None);
    assert_eq!(display.display_number, 2);
    assert_eq!(display.screen_number, None);
    assert_eq!(display.get_socket_path(), "/tmp/.X11-unix/X2");
}

#[test]
fn test_invalid_display_format() {
    let display_str = "invalid_format";
    let result = Display::from_str(display_str);
    assert!(result.is_err());
}

#[test]
fn test_invalid_display_number() {
    let display_str = ":abc";
    let result = Display::from_str(display_str);
    assert!(result.is_err());
}

#[test]
fn test_invalid_screen_number() {
    let display_str = ":0.xyz";
    let result = Display::from_str(display_str);
    assert!(result.is_err());
}

#[test]
fn test_no_display_variable() {
    let result = Display::from_env(None);
    assert!(result.is_err());
}

#[test]
fn test_parse_local_display() {
    let display_str = ":0.0";
    let expected = Display {
        hostname: None,
        display_number: 0,
        screen_number: Some(0),
    };
    let result = Display::from_str(display_str).unwrap();
    assert_eq!(result, expected);
}

#[test]
fn test_parse_remote_display() {
    let display_str = "192.168.1.100:1.1";
    let expected = Display {
        hostname: Some("192.168.1.100".to_string()),
        display_number: 1,
        screen_number: Some(1),
    };
    let result = Display::from_str(display_str).unwrap();
    assert_eq!(result, expected);
}

#[test]
fn test_get_socket_path_display_0() {
    let display = Display {
        hostname: None,
        display_number: 0,
        screen_number: Some(0),
    };
    assert_eq!(display.get_socket_path(), "/tmp/.X11-unix/X0");
}

#[test]
fn test_get_socket_path_display_1() {
    let display = Display {
        hostname: None,
        display_number: 1,
        screen_number: Some(0),
    };
    assert_eq!(display.get_socket_path(), "/tmp/.X11-unix/X1");
}

#[test]
fn test_with_hostname_and_screen() {
    let display = Display {
        hostname: Some("localhost".to_string()),
        display_number: 0,
        screen_number: Some(0),
    };
    assert_eq!(display.to_display_address(), "localhost:0.0");
}

#[test]
fn test_with_hostname_without_screen() {
    let display = Display {
        hostname: Some("localhost".to_string()),
        display_number: 1,
        screen_number: None,
    };
    assert_eq!(display.to_display_address(), "localhost:1");
}

#[test]
fn test_without_hostname_with_screen() {
    let display = Display {
        hostname: None,
        display_number: 2,
        screen_number: Some(1),
    };
    assert_eq!(display.to_display_address(), ":2.1");
}

#[test]
fn test_without_hostname_and_screen() {
    let display = Display {
        hostname: None,
        display_number: 3,
        screen_number: None,
    };
    assert_eq!(display.to_display_address(), ":3");
}

#[test]
fn test_round_trip_parse_then_render() {
    for s in ["localhost:0.0", "192.168.1.100:7.3", ":0.0", ":12", "host.example.org:4"] {
        let display = Display::from_str(s).unwrap();
        assert_eq!(display.to_display_address(), s);
    }
}

#[test]
fn test_empty_hostname_rendered_as_empty_string() {
    let display = Display::from_str(":0.0").unwrap();
    let rendered = display.to_display_address();
    assert!(rendered.starts_with(':'));
    assert_eq!(rendered, ":0.0");
}

#[test]
fn test_display_error_kinds_are_distinct() {
    assert!(matches!(
        Display::from_str("a:b:c"),
        Err(DisplayError::InvalidFormat(_))
    ));
    assert!(matches!(
        Display::from_str(":abc"),
        Err(DisplayError::InvalidDisplayNumber(_))
    ));
    assert!(matches!(
        Display::from_str(":0.xyz"),
        Err(DisplayError::InvalidScreenNumber(_))
    ));
    assert!(matches!(Display::from_env(None), Err(DisplayError::NotSet)));
}

#[test]
fn test_display_number_overflow_rejected() {
    assert!(Display::from_str(":4294967296").is_err());
    let display = Display::from_str(":4294967295").unwrap();
    assert_eq!(display.display_number, 4294967295);
}

#[test]
fn test_display_error_message_names_token() {
    let err = Display::from_str(":abc").unwrap_err();
    assert_eq!(err.message(), "invalid display number: abc");
    let err = Display::from_env(None).unwrap_err();
    assert_eq!(err.message(), "DISPLAY environment variable is not set");
}
