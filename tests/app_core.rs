use menu_shell::app::{bool_string, decimal_string, AppCore, Message};
use menu_shell::layout::{Axis, Layout};
use menu_shell::menu::{MenuEvent, MenuNode, SizeOption};

fn menus() -> Vec<MenuNode> {
    let leaf = |l: &str| MenuNode::Leaf { label: l.to_string() };
    vec![
        MenuNode::Submenu { label: "Nested Menus".to_string(), children: vec![leaf("Item"), leaf("Item")] },
        MenuNode::Submenu {
            label: "Widgets".to_string(),
            children: vec![leaf("Button"), MenuNode::Submenu { label: "Toggle".to_string(), children: vec![leaf("Item")] }],
        },
    ]
}
use menu_shell::shell::{outcome_of, CommandRun, ShellEffect, ShellMessage};
use menu_shell::tabs::{TabId, TabRouter};

const ALL_TABS: [TabId; 5] = [TabId::Login, TabId::Ferris, TabId::Counter, TabId::Settings, TabId::Shell];

#[test]
fn initial_state() {
    let app = AppCore::new(menus());
    assert_eq!(app.title(), "Menu Test");
    assert_eq!(app.text(), "Text Input");
    assert_eq!(app.size_option(), SizeOption::Static);
    assert_eq!(app.tabs().active_tab(), TabId::Login);
    assert_eq!(app.layout().divider_position(Axis::Horizontal), Some(200));
    assert_eq!(app.layout().divider_position(Axis::Vertical), None);
    assert!(app.open_path().indices().is_empty());
    assert!(app.close_condition().leave);
}

#[test]
fn select_then_render_every_tab() {
    for id in ALL_TABS {
        let mut router = TabRouter::new(TabId::Login);
        router.select(id);
        assert_eq!(router.active_tab(), id);
        assert_eq!(TabId::at(router.render_active()), Some(id));
    }
    assert_eq!(TabId::Shell.position(), 0);
    assert_eq!(TabId::Settings.position(), 4);
    assert_eq!(TabId::at(5), None);
}

#[test]
fn selecting_active_tab_changes_nothing() {
    let mut app = AppCore::new(menus());
    app.update(Message::TabSelected(TabId::Login));
    assert_eq!(app.tabs().active_tab(), TabId::Login);
}

#[test]
fn hidden_shell_tab_keeps_its_state() {
    let mut app = AppCore::new(menus());
    app.update(Message::TabSelected(TabId::Counter));
    let effect = app.update(Message::Shell(ShellMessage::DataChanged("echo".to_string())));
    assert!(matches!(effect, ShellEffect::Nothing));
    assert_eq!(app.tabs().active_tab(), TabId::Counter);
    assert_eq!(app.tabs().shell().input(), "echo");
    app.update(Message::TabSelected(TabId::Shell));
    assert_eq!(app.tabs().shell().input(), "echo");
}

#[test]
fn drags_on_two_axes_are_independent() {
    let mut app = AppCore::new(menus());
    app.update(Message::OnHorResize(300));
    app.update(Message::OnVerResize(40));
    assert_eq!(app.layout().divider_position(Axis::Horizontal), Some(300));
    assert_eq!(app.layout().divider_position(Axis::Vertical), Some(40));
}

#[test]
fn flips_keep_offsets() {
    let mut layout = Layout::new();
    layout.on_drag(Axis::Vertical, 77);
    layout.flip_horizontal();
    layout.flip_vertical();
    assert!(layout.flip_h && layout.flip_v);
    assert_eq!(layout.horizontal, Some(200));
    assert_eq!(layout.vertical, Some(77));
}

#[test]
fn sizing_toggle_keeps_path_and_tab() {
    let mut app = AppCore::new(menus());
    app.update(Message::TabSelected(TabId::Ferris));
    app.update(Message::Menu(MenuEvent::HoverEnter { depth: 0, index: 1 }));
    app.update(Message::Menu(MenuEvent::HoverEnter { depth: 1, index: 1 }));
    app.update(Message::SizeOption(SizeOption::Uniform));
    assert_eq!(app.size_option(), SizeOption::Uniform);
    assert_eq!(app.title(), "Uniform");
    assert_eq!(app.open_path().indices().as_slice(), &[1, 1]);
    assert_eq!(app.menus().len(), 2);
    assert_eq!(app.tabs().active_tab(), TabId::Ferris);
}

#[test]
fn pointer_leave_closes_menus_at_start() {
    let mut app = AppCore::new(menus());
    app.update(Message::Menu(MenuEvent::HoverEnter { depth: 0, index: 1 }));
    app.update(Message::Menu(MenuEvent::ClickOutside));
    assert_eq!(app.open_path().indices().as_slice(), &[1]);
    app.update(Message::Menu(MenuEvent::PointerLeave));
    assert!(app.open_path().indices().is_empty());
}

#[test]
fn command_round_trip_through_messages() {
    let mut app = AppCore::new(menus());
    app.update(Message::Shell(ShellMessage::DataChanged("date".to_string())));
    let line = match app.update(Message::Shell(ShellMessage::SubmitInput)) {
        ShellEffect::RunCommand(line) => line,
        ShellEffect::Nothing => panic!("a submission must ask for a run"),
    };
    assert_eq!(line, "date");
    let outcome = outcome_of(CommandRun::Exited { success: true, stdout: b"today\n".to_vec(), stderr: vec![] });
    let effect = app.update(Message::CommandFinished(outcome));
    assert!(matches!(effect, ShellEffect::Nothing));
    assert_eq!(app.tabs().shell().output(), "$ today\n\n");
    assert_eq!(app.tabs().shell().input(), "");
}

#[test]
fn title_follows_controls() {
    let mut app = AppCore::new(menus());
    app.update(Message::ValueChange(7));
    assert_eq!(app.value(), 7);
    assert_eq!(app.title(), "7");
    app.update(Message::ValueChange(255));
    assert_eq!(app.title(), "255");
    app.update(Message::CheckChange(true));
    assert!(app.check());
    assert_eq!(app.title(), "true");
    app.update(Message::ToggleChange(false));
    assert!(!app.toggle());
    assert_eq!(app.title(), "false");
    app.update(Message::TextChange("hello".to_string()));
    assert_eq!(app.text(), "hello");
    assert_eq!(app.title(), "hello");
    app.update(Message::Debug("Item".to_string()));
    assert_eq!(app.title(), "Item");
    app.update(Message::ThemeChange(true));
    assert!(app.dark_mode());
    app.update(Message::FlipVertical);
    assert!(app.layout().flip_v);
}

#[test]
fn decimal_and_bool_text() {
    for v in [0u8, 9, 10, 99, 100, 200, 255] {
        assert_eq!(decimal_string(v), v.to_string());
    }
    assert_eq!(bool_string(true), "true");
    assert_eq!(bool_string(false), "false");
}
