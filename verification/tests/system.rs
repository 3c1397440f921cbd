use desk_switch::input::{
    button_code, input_actions, key_code, sim_button, sim_key, ui_key_code, InputAction,
    MouseButton, PhysicalKey, SimButton, SimKey, UiKey,
};
use desk_switch::platform::{
    firewall_prompt_canceled, firewall_rule_args, firewall_script, setup_permissions, SetupStep,
    TargetOs, Transport,
};
use desk_switch::protocol::Message;
use desk_switch::text::{contains, starts_with, str_eq, trim};
use desk_switch::virtual_display::{
    display_index_for, driver_listed, fallback_display_index, parse_helper_line,
    reported_display_id, HelperLine, VirtualDisplayError, VirtualMonitor, WinVirtualMonitor,
};

#[test]
fn key_codes() {
    assert_eq!(key_code(PhysicalKey::Alt), 1);
    assert_eq!(key_code(PhysicalKey::KeyA), 65);
    assert_eq!(key_code(PhysicalKey::IntlBackslash), 88);
    assert_eq!(key_code(PhysicalKey::Unknown(5)), 1005);
    assert_eq!(key_code(PhysicalKey::Other), 999);
    assert_eq!(sim_key(65), Some(SimKey::Unicode('a')));
    assert_eq!(sim_key(5), Some(SimKey::Control));
    assert_eq!(sim_key(6), Some(SimKey::Control));
    assert_eq!(sim_key(75), Some(SimKey::Unicode('\'')));
    assert_eq!(sim_key(2), None);
    assert_eq!(sim_key(999), None);
    assert_eq!(ui_key_code(UiKey::Enter), Some(29));
    assert_eq!(ui_key_code(UiKey::A), Some(65));
    assert_eq!(ui_key_code(UiKey::Other), None);
}

#[test]
fn forwarded_keys_are_replayable() {
    for k in [UiKey::Backspace, UiKey::Tab, UiKey::Enter, UiKey::ArrowDown, UiKey::Z, UiKey::Num0, UiKey::F12, UiKey::Minus] {
        let c = ui_key_code(k).unwrap();
        assert!(sim_key(c).is_some());
    }
    assert_eq!(ui_key_code(UiKey::Q), Some(key_code(PhysicalKey::KeyQ)));
    assert_eq!(ui_key_code(UiKey::ArrowLeft), Some(key_code(PhysicalKey::LeftArrow)));
}

#[test]
fn buttons() {
    assert_eq!(button_code(MouseButton::Left), 0);
    assert_eq!(button_code(MouseButton::Right), 1);
    assert_eq!(button_code(MouseButton::Middle), 2);
    assert_eq!(button_code(MouseButton::Unknown(8)), 8);
    assert_eq!(sim_button(1), SimButton::Right);
    assert_eq!(sim_button(2), SimButton::Middle);
    assert_eq!(sim_button(8), SimButton::Left);
}

#[test]
fn replaying_messages() {
    let half = 0.5f32.to_bits();
    assert_eq!(
        input_actions(&Message::MouseMove { x_ratio_bits: half, y_ratio_bits: 0 }),
        vec![InputAction::MoveTo { x_ratio_bits: half, y_ratio_bits: 0 }]
    );
    assert_eq!(
        input_actions(&Message::MouseClick { button: 1, pressed: false, x_ratio_bits: 0, y_ratio_bits: 0 }),
        vec![InputAction::Button { button: SimButton::Right, press: false }]
    );
    assert_eq!(
        input_actions(&Message::MouseScroll { dx: 2, dy: -3 }),
        vec![InputAction::Scroll { amount: -3, vertical: true }, InputAction::Scroll { amount: 2, vertical: false }]
    );
    assert_eq!(input_actions(&Message::MouseScroll { dx: 0, dy: 0 }), vec![]);
    assert_eq!(
        input_actions(&Message::KeyEvent { key_code: 33, pressed: true }),
        vec![InputAction::Key { key: SimKey::Space, press: true }]
    );
    assert_eq!(input_actions(&Message::KeyEvent { key_code: 36, pressed: true }), vec![]);
    assert_eq!(input_actions(&Message::Heartbeat { timestamp_ms: 0 }), vec![]);
}

#[test]
fn setup_steps() {
    let mac = setup_permissions(TargetOs::MacOs);
    assert!(matches!(mac[..], [SetupStep::OpenAccessibilitySettings, SetupStep::AddAppFirewallException]));
    assert!(setup_permissions(TargetOs::Other).is_empty());
    let win = setup_permissions(TargetOs::Windows);
    let names: Vec<String> = win
        .iter()
        .map(|s| match s {
            SetupStep::AddFirewallRule(r) => r.name.clone(),
            _ => String::new(),
        })
        .collect();
    assert_eq!(names, vec!["DeskSwitch-TCP-9876", "DeskSwitch-UDP-9876", "DeskSwitch-TCP-9877", "DeskSwitch-UDP-9877"]);
    if let SetupStep::AddFirewallRule(r) = &win[1] {
        assert_eq!(r.transport, Transport::Udp);
        assert_eq!(
            firewall_rule_args(r),
            vec!["advfirewall", "firewall", "add", "rule", "name=DeskSwitch-UDP-9876", "dir=in", "action=allow", "protocol=UDP", "localport=9876"]
        );
    } else {
        panic!("expected a rule");
    }
}

#[test]
fn firewall_prompt() {
    assert_eq!(
        firewall_script("/Apps/ds"),
        "do shell script \"/usr/libexec/ApplicationFirewall/socketfilterfw --remove '/Apps/ds' 2>/dev/null; /usr/libexec/ApplicationFirewall/socketfilterfw --add '/Apps/ds'; /usr/libexec/ApplicationFirewall/socketfilterfw --unblockapp '/Apps/ds'\" with administrator privileges"
    );
    assert!(firewall_prompt_canceled("execution error: User canceled. (-128)"));
    assert!(firewall_prompt_canceled("error -128"));
    assert!(!firewall_prompt_canceled("permission denied"));
}

#[test]
fn virtual_monitor_lifecycle() {
    let mut vm = VirtualMonitor::new(2);
    assert!(vm.active());
    assert_eq!(vm.display_index, 2);
    assert_eq!(vm.destroy(), Ok(()));
    assert!(!vm.active());
    assert_eq!(vm.destroy(), Ok(()));
    assert_eq!(vm.display_index, 2);
    let w = WinVirtualMonitor::new(1920, 1080);
    assert_eq!((w.width, w.height), (1920, 1080));
}

#[test]
fn display_index_lookup() {
    assert_eq!(display_index_for(&vec![7, 9, 9], 9), Some(1));
    assert_eq!(display_index_for(&vec![7], 3), None);
    assert_eq!(fallback_display_index(3), 2);
    assert_eq!(fallback_display_index(0), 0);
}

#[test]
fn helper_output() {
    assert_eq!(parse_helper_line("DISPLAY_ID=  42 "), HelperLine::DisplayId(42));
    assert_eq!(parse_helper_line("DISPLAY_ID=x"), HelperLine::Invalid);
    assert_eq!(parse_helper_line("DISPLAY_ID="), HelperLine::Invalid);
    assert_eq!(parse_helper_line("starting"), HelperLine::Other);
    assert_eq!(reported_display_id(0), Err(VirtualDisplayError::NoDisplayId));
    assert_eq!(reported_display_id(5), Ok(5));
    assert_eq!(VirtualDisplayError::Unsupported.message(), "Virtual displays are not supported on this platform");
    assert!(driver_listed("Instance ID: ROOT\\DISPLAY\\0000 Virtual Display Driver"));
    assert!(driver_listed("IddSampleDriver"));
    assert!(!driver_listed("Intel UHD"));
}

#[test]
fn string_helpers() {
    assert!(str_eq("abc", "abc"));
    assert!(!str_eq("abc", "abd"));
    assert!(starts_with("192.168.1.1", "192.168."));
    assert!(!starts_with("19", "192"));
    assert!(contains("hello world", "o w"));
    assert!(contains("x", ""));
    assert!(!contains("hello", "world"));
    assert_eq!(trim("  a b \t\n"), "a b");
    assert_eq!(trim("\u{3000}x\u{2003}"), "x");
    assert_eq!(trim("   "), "");
    for s in [" a ", "\u{85}b", "c\u{a0}", "", "d"] {
        assert_eq!(trim(s), s.trim());
    }
}
