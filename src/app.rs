use vstd::prelude::*;
use vstd::string::*;
use crate::layout::{Axis, Layout, dragged, initial_layout, offset_spec};
use crate::menu::{CloseCondition, MenuEvent, MenuNode, OpenPath, SizeOption, path_after, size_label_spec};
use crate::shell::{ProcessOutcome, ShellEffect, ShellMessage, shell_step, shell_effect_ok, shell_finished};
use crate::tabs::{RouterModel, TabId, TabRouter, position_spec, tab_at_spec};

verus! {

/// An event of the application.
#[derive(Clone, Debug)]
pub enum Message {
    /// Shows a text in the title.
    Debug(String),
    ValueChange(u8),
    CheckChange(bool),
    ToggleChange(bool),
    FlipHorizontal,
    FlipVertical,
    ThemeChange(bool),
    TextChange(String),
    SizeOption(SizeOption),
    OnVerResize(u16),
    OnHorResize(u16),
    TabSelected(TabId),
    Menu(MenuEvent),
    Shell(ShellMessage),
    /// The outcome of a command that the terminal tab asked to run.
    CommandFinished(ProcessOutcome),
}

/// The application's state, as values.
pub struct AppModel {
    pub title: Seq<char>,
    pub value: u8,
    pub check: bool,
    pub toggle: bool,
    pub dark_mode: bool,
    pub text: Seq<char>,
    pub size_option: SizeOption,
    pub layout: Layout,
    pub menus: Seq<MenuNode>,
    pub menu: Seq<usize>,
    pub close: CloseCondition,
    pub tabs: RouterModel,
}

pub open spec fn digit_char(d: nat) -> char {
    if d == 0 { '0' }
    else if d == 1 { '1' }
    else if d == 2 { '2' }
    else if d == 3 { '3' }
    else if d == 4 { '4' }
    else if d == 5 { '5' }
    else if d == 6 { '6' }
    else if d == 7 { '7' }
    else if d == 8 { '8' }
    else { '9' }
}

/// The decimal digits of a number, most significant first.
pub open spec fn decimal(n: nat) -> Seq<char>
    decreases n,
{
    if n < 10 {
        seq![digit_char(n)]
    } else {
        decimal(n / 10).push(digit_char(n % 10))
    }
}

pub open spec fn bool_text(b: bool) -> Seq<char> {
    if b {
        seq!['t', 'r', 'u', 'e']
    } else {
        seq!['f', 'a', 'l', 's', 'e']
    }
}

/// The state after one message.
pub open spec fn step(m: AppModel, msg: Message) -> AppModel {
    match msg {
        Message::Debug(s) => AppModel { title: s@, ..m },
        Message::ValueChange(v) => AppModel { value: v, title: decimal(v as nat), ..m },
        Message::CheckChange(c) => AppModel { check: c, title: bool_text(c), ..m },
        Message::ToggleChange(t) => AppModel { toggle: t, title: bool_text(t), ..m },
        Message::FlipHorizontal => AppModel { layout: Layout { flip_h: !m.layout.flip_h, ..m.layout }, ..m },
        Message::FlipVertical => AppModel { layout: Layout { flip_v: !m.layout.flip_v, ..m.layout }, ..m },
        Message::ThemeChange(b) => AppModel { dark_mode: b, ..m },
        Message::TextChange(s) => AppModel { text: s@, title: s@, ..m },
        Message::SizeOption(o) => AppModel { size_option: o, title: size_label_spec(o), ..m },
        Message::OnVerResize(p) => AppModel { layout: dragged(m.layout, Axis::Vertical, p), ..m },
        Message::OnHorResize(p) => AppModel { layout: dragged(m.layout, Axis::Horizontal, p), ..m },
        Message::TabSelected(t) => AppModel { tabs: RouterModel { active: t, ..m.tabs }, ..m },
        Message::Menu(e) => AppModel { menu: path_after(m.menus, m.menu, m.close, e), ..m },
        Message::Shell(sm) => AppModel { tabs: RouterModel { shell: shell_step(m.tabs.shell, sm), ..m.tabs }, ..m },
        Message::CommandFinished(o) => AppModel {
            tabs: RouterModel { shell: shell_finished(m.tabs.shell, o.captured_text@), ..m.tabs },
            ..m
        },
    }
}

/// What a message asks of the host: only a terminal submission asks anything.
pub open spec fn effect_ok(m: AppModel, msg: Message, e: ShellEffect) -> bool {
    match msg {
        Message::Shell(sm) => shell_effect_ok(m.tabs.shell, sm, e),
        _ => e is Nothing,
    }
}

fn digit_str(d: u8) -> (r: &'static str)
    requires
        d < 10,
    ensures
        r@ == seq![digit_char(d as nat)],
{
    proof {
        reveal_strlit("0");
        reveal_strlit("1");
        reveal_strlit("2");
        reveal_strlit("3");
        reveal_strlit("4");
        reveal_strlit("5");
        reveal_strlit("6");
        reveal_strlit("7");
        reveal_strlit("8");
        reveal_strlit("9");
    }
    match d {
        0 => "0",
        1 => "1",
        2 => "2",
        3 => "3",
        4 => "4",
        5 => "5",
        6 => "6",
        7 => "7",
        8 => "8",
        _ => "9",
    }
}

/// A number written in decimal.
pub fn decimal_string(v: u8) -> (r: String)
    ensures
        r@ == decimal(v as nat),
{
    let mut s = String::new();
    if v >= 100 {
        s.append(digit_str(v / 100));
    }
    if v >= 10 {
        s.append(digit_str((v / 10) % 10));
    }
    s.append(digit_str(v % 10));
    proof {
        let n = v as nat;
        if n >= 100 {
            assert(decimal(n / 100) == seq![digit_char(n / 100)]);
            assert(decimal(n / 10) == decimal(n / 100).push(digit_char((n / 10) % 10)));
            assert(decimal(n) == decimal(n / 10).push(digit_char(n % 10)));
            assert(s@ =~= decimal(n));
        } else if n >= 10 {
            assert(decimal(n / 10) == seq![digit_char(n / 10)]);
            assert(decimal(n) == decimal(n / 10).push(digit_char(n % 10)));
            assert(s@ =~= decimal(n));
        } else {
            assert(s@ =~= decimal(n));
        }
    }
    s
}

/// A truth value written out.
pub fn bool_string(b: bool) -> (r: String)
    ensures
        r@ == bool_text(b),
{
    proof {
        reveal_strlit("true");
        reveal_strlit("false");
    }
    if b {
        String::from_str("true")
    } else {
        String::from_str("false")
    }
}

/// The root state: one menu bar, one tab router, one layout, and the flags
/// that the menus edit.
pub struct AppCore {
    title: String,
    value: u8,
    check: bool,
    toggle: bool,
    dark_mode: bool,
    text: String,
    size_option: SizeOption,
    layout: Layout,
    menus: Vec<MenuNode>,
    menu: OpenPath,
    close: CloseCondition,
    tabs: TabRouter,
}

impl View for AppCore {
    type V = AppModel;

    closed spec fn view(&self) -> AppModel {
        AppModel {
            title: self.title@,
            value: self.value,
            check: self.check,
            toggle: self.toggle,
            dark_mode: self.dark_mode,
            text: self.text@,
            size_option: self.size_option,
            layout: self.layout,
            menus: self.menus@,
            menu: self.menu@,
            close: self.close,
            tabs: self.tabs@,
        }
    }
}

impl AppCore {
    /// The state at start, with the menu tree whose top-level entries are
    /// `menus`: the login tab shown, every menu closed, the static sizing
    /// policy, and menus that collapse when the pointer leaves them.
    pub fn new(menus: Vec<MenuNode>) -> (r: Self)
        ensures
            r@.title == seq!['M', 'e', 'n', 'u', ' ', 'T', 'e', 's', 't'],
            r@.value == 0,
            !r@.check,
            !r@.toggle,
            !r@.dark_mode,
            r@.text == seq!['T', 'e', 'x', 't', ' ', 'I', 'n', 'p', 'u', 't'],
            r@.size_option == SizeOption::Static,
            r@.layout == initial_layout(),
            r@.menus == menus@,
            r@.menu.len() == 0,
            r@.close == (CloseCondition { leave: true, click_outside: false, click_inside: false }),
            r@.tabs.active == TabId::Login,
            r@.tabs.shell.output.len() == 0,
            r@.tabs.shell.input.len() == 0,
    {
        proof {
            reveal_strlit("Menu Test");
            reveal_strlit("Text Input");
        }
        AppCore {
            title: String::from_str("Menu Test"),
            value: 0,
            check: false,
            toggle: false,
            dark_mode: false,
            text: String::from_str("Text Input"),
            size_option: SizeOption::Static,
            layout: Layout::new(),
            menus,
            menu: OpenPath::new(),
            close: CloseCondition { leave: true, click_outside: false, click_inside: false },
            tabs: TabRouter::new(TabId::Login),
        }
    }

    pub fn title(&self) -> (r: &String)
        ensures
            r@ == self@.title,
    {
        &self.title
    }

    pub fn value(&self) -> (r: u8)
        ensures
            r == self@.value,
    {
        self.value
    }

    pub fn check(&self) -> (r: bool)
        ensures
            r == self@.check,
    {
        self.check
    }

    pub fn toggle(&self) -> (r: bool)
        ensures
            r == self@.toggle,
    {
        self.toggle
    }

    pub fn dark_mode(&self) -> (r: bool)
        ensures
            r == self@.dark_mode,
    {
        self.dark_mode
    }

    pub fn text(&self) -> (r: &String)
        ensures
            r@ == self@.text,
    {
        &self.text
    }

    pub fn size_option(&self) -> (r: SizeOption)
        ensures
            r == self@.size_option,
    {
        self.size_option
    }

    pub fn layout(&self) -> (r: Layout)
        ensures
            r == self@.layout,
    {
        self.layout
    }

    pub fn menus(&self) -> (r: &Vec<MenuNode>)
        ensures
            r@ == self@.menus,
    {
        &self.menus
    }

    pub fn open_path(&self) -> (r: &OpenPath)
        ensures
            r@ == self@.menu,
    {
        &self.menu
    }

    pub fn close_condition(&self) -> (r: CloseCondition)
        ensures
            r == self@.close,
    {
        self.close
    }

    pub fn tabs(&self) -> (r: &TabRouter)
        ensures
            r@ == self@.tabs,
    {
        &self.tabs
    }

    /// Routes one message to the part of the state that owns it.
    #[verifier::rlimit(60)]
    pub fn update(&mut self, message: Message) -> (e: ShellEffect)
        ensures
            final(self)@ == step(old(self)@, message),
            effect_ok(old(self)@, message, e),
    {
        match message {
            Message::Debug(s) => {
                self.title = s;
            },
            Message::ValueChange(v) => {
                self.value = v;
                self.title = decimal_string(v);
            },
            Message::CheckChange(c) => {
                self.check = c;
                self.title = bool_string(c);
            },
            Message::ToggleChange(t) => {
                self.toggle = t;
                self.title = bool_string(t);
            },
            Message::FlipHorizontal => self.layout.flip_horizontal(),
            Message::FlipVertical => self.layout.flip_vertical(),
            Message::ThemeChange(b) => {
                self.dark_mode = b;
            },
            Message::TextChange(s) => {
                self.text = s.clone();
                self.title = s;
            },
            Message::SizeOption(o) => {
                self.size_option = o;
                self.title = o.label();
            },
            Message::OnVerResize(p) => self.layout.on_drag(Axis::Vertical, p),
            Message::OnHorResize(p) => self.layout.on_drag(Axis::Horizontal, p),
            Message::TabSelected(t) => self.tabs.select(t),
            Message::Menu(event) => self.menu.handle_event(&self.menus, self.close, event),
            Message::Shell(sm) => {
                return self.tabs.dispatch_shell(sm);
            },
            Message::CommandFinished(outcome) => self.tabs.finish_shell_command(&outcome),
        }
        ShellEffect::Nothing
    }
}

/// Selecting any registered tab and then drawing draws that tab.
pub proof fn lemma_select_then_render(m: AppModel, id: TabId)
    ensures
        step(m, Message::TabSelected(id)).tabs.active == id,
        tab_at_spec(position_spec(step(m, Message::TabSelected(id)).tabs.active)) == Some(id),
{
}

/// A message for the terminal tab reaches it while another tab is shown, and
/// leaves the active tab as it was.
pub proof fn lemma_hidden_tab_keeps_active(m: AppModel, msg: ShellMessage)
    requires
        m.tabs.active != TabId::Shell,
    ensures
        step(m, Message::Shell(msg)).tabs.active == m.tabs.active,
        step(m, Message::Shell(msg)).tabs.shell == shell_step(m.tabs.shell, msg),
{
}

/// Resizing one split never moves the other: after a drag on each, each holds
/// the offset it was dragged to.
pub proof fn lemma_resizes_independent(m: AppModel, hor: u16, ver: u16)
    ensures
        offset_spec(step(step(m, Message::OnHorResize(hor)), Message::OnVerResize(ver)).layout, Axis::Horizontal) == Some(hor),
        offset_spec(step(step(m, Message::OnHorResize(hor)), Message::OnVerResize(ver)).layout, Axis::Vertical) == Some(ver),
        offset_spec(step(step(m, Message::OnVerResize(ver)), Message::OnHorResize(hor)).layout, Axis::Horizontal) == Some(hor),
{
}

/// Changing the sizing policy leaves the menu tree, the open menus and the
/// active tab alone.
pub proof fn lemma_sizing_keeps_path_and_tab(m: AppModel, o: SizeOption)
    ensures
        step(m, Message::SizeOption(o)).menus == m.menus,
        step(m, Message::SizeOption(o)).menu == m.menu,
        step(m, Message::SizeOption(o)).tabs.active == m.tabs.active,
        step(m, Message::SizeOption(o)).size_option == o,
{
}

} // verus!
