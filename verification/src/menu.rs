//! The pause menu: whether it is open, the overlay that shows while it is, and
//! what its buttons do.

use crate::input::{keys_in, read_keys};
use bevy::input::keyboard::KeyCode;
use bevy::input::Input;
use vstd::prelude::*;

verus! {

/// How many entities the overlay is made of: the title, two lines of status,
/// three buttons and the text on each button.
pub const OVERLAY_SIZE: usize = 9;

/// The opacity of a button under the pointer, and of a new button, in
/// thousandths.
pub const OPACITY_RAISED: u32 = 800;

/// The opacity of a button that the pointer has left.
pub const OPACITY_RESTING: u32 = 500;

/// Whether the pause menu is open. While it is closed the game runs; while it
/// is open the game stands still and the overlay shows.
#[derive(Clone, Copy, PartialEq, Eq, Structural, Debug)]
pub enum MenuState {
    Closed,
    Open,
}

impl Default for MenuState {
    /// The game begins with the menu closed.
    fn default() -> (r: MenuState)
        ensures
            r == MenuState::Closed,
    {
        MenuState::Closed
    }
}

/// What the pointer does to a button.
#[derive(Clone, Copy, PartialEq, Eq, Structural, Debug)]
pub enum Interaction {
    /// The button is being pressed.
    Pressed,
    /// The pointer is over the button.
    Hovered,
    /// The pointer is elsewhere.
    Idle,
}

/// How the frame rate is held: to the display's rate, to a rate that was set by
/// hand, or not at all.
#[derive(Clone, Copy, PartialEq, Eq, Structural, Debug)]
pub enum Limiter {
    Auto,
    Manual,
    Off,
}

/// The control that an entity of the overlay belongs to.
#[derive(Clone, Copy, PartialEq, Eq, Structural, Debug)]
pub enum Control {
    /// The button that resumes the game.
    FortsetzenButton,
    /// The button that locks and unlocks the frame rate.
    FPSButton,
    /// The button that ends the game.
    QuitButton,
}

/// The texts of the overlay.
#[derive(Clone, Copy, PartialEq, Eq, Structural, Debug)]
pub enum Label {
    TankGame,
    SpielPausiert,
    EscapeZumFortsetzen,
    Fortsetzen,
    FramerateLocked,
    FramerateUnlocked,
    SpielBeenden,
}

/// The colours of the overlay's texts.
#[derive(Clone, Copy, PartialEq, Eq, Structural, Debug)]
pub enum TextColor {
    Red,
    White,
}

/// What an entity of the overlay shows.
#[derive(Clone, Copy, PartialEq, Eq, Structural, Debug)]
pub enum Widget {
    /// A line of text.
    Text { label: Label, font_size: u32, color: TextColor },
    /// A button, with the opacity of its background in thousandths.
    Button { opacity: u32 },
}

/// An entity of the overlay. The overlay is made anew whenever the menu opens,
/// and nothing of it outlasts the menu's closing.
#[derive(Clone, Copy, PartialEq, Eq, Structural, Debug)]
pub struct MenuItem {
    pub widget: Widget,
    /// The place in the overlay of the entity that this one is a child of, if
    /// it is one.
    pub parent: Option<usize>,
    pub control: Option<Control>,
    /// The margin round the entity, in pixels.
    pub margin: u32,
}

/// A change of what the pointer does to the entity at place `item` of the
/// overlay.
#[derive(Clone, Copy, PartialEq, Eq, Structural, Debug)]
pub struct InteractionChange {
    pub item: usize,
    pub interaction: Interaction,
}

impl Label {
    /// The text as it is shown.
    pub open spec fn spelled(self) -> Seq<char> {
        match self {
            Label::TankGame => "Tank Game"@,
            Label::SpielPausiert => "Spiel Pausiert"@,
            Label::EscapeZumFortsetzen => "Escape zum Fortsetzen"@,
            Label::Fortsetzen => "Fortsetzen"@,
            Label::FramerateLocked => "Framerate: Locked"@,
            Label::FramerateUnlocked => "Framerate: Unlocked"@,
            Label::SpielBeenden => "Spiel Beenden"@,
        }
    }

    /// The text as it is shown.
    pub fn text(self) -> (r: &'static str)
        ensures
            r@ == self.spelled(),
    {
        match self {
            Label::TankGame => "Tank Game",
            Label::SpielPausiert => "Spiel Pausiert",
            Label::EscapeZumFortsetzen => "Escape zum Fortsetzen",
            Label::Fortsetzen => "Fortsetzen",
            Label::FramerateLocked => "Framerate: Locked",
            Label::FramerateUnlocked => "Framerate: Unlocked",
            Label::SpielBeenden => "Spiel Beenden",
        }
    }
}

impl Limiter {
    /// The setting after the button has been pressed: a rate that is held to
    /// the display is let go, any other is held to the display.
    pub open spec fn toggled(self) -> Limiter {
        match self {
            Limiter::Auto => Limiter::Off,
            _ => Limiter::Auto,
        }
    }

    /// What the button says once the setting is this one.
    pub open spec fn label(self) -> Label {
        match self {
            Limiter::Off => Label::FramerateUnlocked,
            _ => Label::FramerateLocked,
        }
    }
}

impl MenuItem {
    /// A line of text.
    pub open spec fn text(
        label: Label,
        font_size: u32,
        color: TextColor,
        margin: u32,
        parent: Option<usize>,
        control: Option<Control>,
    ) -> MenuItem {
        MenuItem { widget: Widget::Text { label, font_size, color }, parent, control, margin }
    }

    /// A new button.
    pub open spec fn button(control: Control) -> MenuItem {
        MenuItem {
            widget: Widget::Button { opacity: OPACITY_RAISED },
            parent: None,
            control: Some(control),
            margin: 15,
        }
    }

    /// Whether this is the button of `control`.
    pub open spec fn is_button_of(self, control: Control) -> bool {
        self.widget is Button && self.control == Some(control)
    }

    /// Whether two entities differ at most in what a button press or the
    /// pointer can change: the text that is shown, and the opacity.
    pub open spec fn same_shape(self, other: MenuItem) -> bool {
        &&& self.parent == other.parent
        &&& self.control == other.control
        &&& self.margin == other.margin
        &&& match (self.widget, other.widget) {
            (
                Widget::Text { label: _, font_size: a, color: c },
                Widget::Text { label: _, font_size: b, color: d },
            ) => a == b && c == d,
            (Widget::Button { opacity: _ }, Widget::Button { opacity: _ }) => true,
            _ => false,
        }
    }

    /// The entity after the pointer has changed what it does to it: a button
    /// is raised under the pointer and rests once the pointer has left, and a
    /// press changes nothing of its looks. Texts do not heed the pointer.
    pub open spec fn hovered(self, interaction: Interaction) -> MenuItem {
        match (self.widget, interaction) {
            (Widget::Button { opacity: _ }, Interaction::Hovered) => MenuItem {
                widget: Widget::Button { opacity: OPACITY_RAISED },
                ..self
            },
            (Widget::Button { opacity: _ }, Interaction::Idle) => MenuItem {
                widget: Widget::Button { opacity: OPACITY_RESTING },
                ..self
            },
            _ => self,
        }
    }

    /// Whether this is the text that tells how the frame rate is held.
    pub open spec fn is_framerate_text(self) -> bool {
        self.widget is Text && self.control == Some(Control::FPSButton)
    }

    /// The entity with `label` for its text, if it is a text.
    pub open spec fn relabelled(self, label: Label) -> MenuItem {
        match self.widget {
            Widget::Text { label: _, font_size, color } => MenuItem {
                widget: Widget::Text { label, font_size, color },
                ..self
            },
            _ => self,
        }
    }

    /// Whether two entities differ at most in the text that is shown and in
    /// the opacity.
    pub fn has_shape_of(&self, other: &MenuItem) -> (r: bool)
        ensures
            r == self.same_shape(*other),
    {
        let alike = match (self.widget, other.widget) {
            (
                Widget::Text { label: _, font_size: a, color: c },
                Widget::Text { label: _, font_size: b, color: d },
            ) => a == b && c == d,
            (Widget::Button { opacity: _ }, Widget::Button { opacity: _ }) => true,
            _ => false,
        };
        self.parent == other.parent && self.control == other.control && self.margin
            == other.margin && alike
    }

    /// Whether this is the button of `control`.
    pub fn button_of(&self, control: Control) -> (r: bool)
        ensures
            r == self.is_button_of(control),
    {
        match self.widget {
            Widget::Button { opacity: _ } => match self.control {
                Some(c) => c == control,
                None => false,
            },
            _ => false,
        }
    }
}

/// The overlay as it is made when the menu opens, in the order in which its
/// entities are made: the title, two lines of status, and three buttons, each
/// followed by its text.
pub open spec fn overlay() -> Seq<MenuItem> {
    seq![
        MenuItem::text(Label::TankGame, 80, TextColor::Red, 30, None, None),
        MenuItem::text(Label::SpielPausiert, 50, TextColor::White, 15, None, None),
        MenuItem::text(Label::EscapeZumFortsetzen, 50, TextColor::White, 15, None, None),
        MenuItem::button(Control::FortsetzenButton),
        MenuItem::text(Label::Fortsetzen, 25, TextColor::White, 15, Some(3), None),
        MenuItem::button(Control::FPSButton),
        MenuItem::text(
            Label::FramerateLocked,
            25,
            TextColor::White,
            15,
            Some(5),
            Some(Control::FPSButton),
        ),
        MenuItem::button(Control::QuitButton),
        MenuItem::text(
            Label::SpielBeenden,
            25,
            TextColor::White,
            15,
            Some(7),
            Some(Control::QuitButton),
        ),
    ]
}

/// Whether `items` is the overlay, but for what a button press or the pointer
/// can change.
pub open spec fn is_overlay(items: Seq<MenuItem>) -> bool {
    &&& items.len() == OVERLAY_SIZE
    &&& forall|i: int| 0 <= i < OVERLAY_SIZE ==> (#[trigger] items[i]).same_shape(overlay()[i])
}

/// Whether two overlays differ at most in what a button press or the pointer
/// can change.
pub open spec fn same_shapes(a: Seq<MenuItem>, b: Seq<MenuItem>) -> bool {
    &&& a.len() == b.len()
    &&& forall|i: int| 0 <= i < a.len() ==> (#[trigger] a[i]).same_shape(b[i])
}

/// The entities after one change of what the pointer does. A change that names
/// no entity changes nothing.
pub open spec fn hover(items: Seq<MenuItem>, change: InteractionChange) -> Seq<MenuItem> {
    if change.item < items.len() {
        items.update(change.item as int, items[change.item as int].hovered(change.interaction))
    } else {
        items
    }
}

/// The entities after the changes of what the pointer does, in their order.
pub open spec fn hover_all(items: Seq<MenuItem>, changes: Seq<InteractionChange>) -> Seq<MenuItem>
    decreases changes.len(),
{
    if changes.len() == 0 {
        items
    } else {
        hover(hover_all(items, changes.drop_last()), changes.last())
    }
}

/// Whether `change` is a press of the button of `control`.
pub open spec fn presses(
    items: Seq<MenuItem>,
    change: InteractionChange,
    control: Control,
) -> bool {
    &&& change.interaction == Interaction::Pressed
    &&& change.item < items.len()
    &&& items[change.item as int].is_button_of(control)
}

/// Whether one of `changes` is a press of the button of `control`.
pub open spec fn pressed_in(
    items: Seq<MenuItem>,
    changes: Seq<InteractionChange>,
    control: Control,
) -> bool {
    exists|i: int| 0 <= i < changes.len() && presses(items, #[trigger] changes[i], control)
}

/// The place of the first child of the entity at place `parent`, looked for
/// from place `from` on.
pub open spec fn first_child_from(items: Seq<MenuItem>, parent: int, from: int) -> Option<int>
    decreases items.len() - from,
{
    if from < 0 || from >= items.len() {
        None
    } else if items[from].parent == Some(parent as usize) {
        Some(from)
    } else {
        first_child_from(items, parent, from + 1)
    }
}

/// The place of the first child of the entity at place `parent`.
pub open spec fn first_child(items: Seq<MenuItem>, parent: int) -> Option<int> {
    first_child_from(items, parent, 0)
}

/// The entities with `label` on the button at place `button`: the label goes
/// to the button's first child, if that is the text that tells how the frame
/// rate is held.
pub open spec fn relabel(items: Seq<MenuItem>, button: int, label: Label) -> Seq<MenuItem> {
    match first_child(items, button) {
        Some(child) => if items[child].is_framerate_text() {
            items.update(child, items[child].relabelled(label))
        } else {
            items
        },
        None => items,
    }
}

/// The entities and the setting after one change of what the pointer does: a
/// press of the button for the frame rate flips the setting and says so on the
/// button.
pub open spec fn lock_toggled(
    items: Seq<MenuItem>,
    limiter: Limiter,
    change: InteractionChange,
) -> (Seq<MenuItem>, Limiter) {
    if presses(items, change, Control::FPSButton) {
        (relabel(items, change.item as int, limiter.toggled().label()), limiter.toggled())
    } else {
        (items, limiter)
    }
}

/// The entities and the setting after the changes of what the pointer does, in
/// their order.
pub open spec fn lock_toggled_all(
    items: Seq<MenuItem>,
    limiter: Limiter,
    changes: Seq<InteractionChange>,
) -> (Seq<MenuItem>, Limiter)
    decreases changes.len(),
{
    if changes.len() == 0 {
        (items, limiter)
    } else {
        let before = lock_toggled_all(items, limiter, changes.drop_last());
        lock_toggled(before.0, before.1, changes.last())
    }
}

/// What the changes of a short list come to, without going through the list:
/// none changes nothing and presses nothing, and a single one is served as the
/// rules for one change say. This holds of every overlay, every setting and
/// every list (`lemma_changes_are_plain`); contracts state it of the lists
/// that they take.
pub open spec fn changes_are_plain(
    items: Seq<MenuItem>,
    limiter: Limiter,
    changes: Seq<InteractionChange>,
) -> bool {
    &&& changes.len() == 0 ==> {
        &&& hover_all(items, changes) == items
        &&& lock_toggled_all(items, limiter, changes) == (items, limiter)
        &&& forall|control: Control| !(#[trigger] pressed_in(items, changes, control))
    }
    &&& changes.len() == 1 ==> {
        &&& hover_all(items, changes) == hover(items, changes[0])
        &&& lock_toggled_all(items, limiter, changes) == lock_toggled(items, limiter, changes[0])
        &&& forall|control: Control| #[trigger]
            pressed_in(items, changes, control) == presses(items, changes[0], control)
    }
}

/// The menu as contracts see it.
pub struct MenuView {
    pub state: MenuState,
    /// The state that a button has asked for and that the next check of the
    /// menu will bring about.
    pub next_state: Option<MenuState>,
    /// The entities of the overlay.
    pub items: Seq<MenuItem>,
}

impl MenuView {
    /// The menu as the game begins: closed, with nothing asked for and nothing
    /// shown.
    pub open spec fn initial() -> MenuView {
        MenuView { state: MenuState::Closed, next_state: None, items: Seq::empty() }
    }

    /// A closed menu shows nothing; an open one shows the whole overlay.
    pub open spec fn well_formed(self) -> bool {
        match self.state {
            MenuState::Closed => self.items.len() == 0,
            MenuState::Open => is_overlay(self.items),
        }
    }

    /// The menu, opened: the overlay is made from scratch.
    pub open spec fn opened(self) -> MenuView {
        MenuView { state: MenuState::Open, next_state: self.next_state, items: overlay() }
    }

    /// The menu, closed: nothing of the overlay is left.
    pub open spec fn closed(self) -> MenuView {
        MenuView { state: MenuState::Closed, next_state: self.next_state, items: Seq::empty() }
    }

    /// The menu in `state`. A menu that is in that state already stays as it
    /// is.
    pub open spec fn set(self, state: MenuState) -> MenuView {
        if self.state == state {
            self
        } else {
            match state {
                MenuState::Open => self.opened(),
                MenuState::Closed => self.closed(),
            }
        }
    }

    /// The menu once what a button asked for has been brought about.
    pub open spec fn settled(self) -> MenuView {
        let menu = match self.next_state {
            Some(state) => self.set(state),
            None => self,
        };
        MenuView { next_state: None, ..menu }
    }

    /// The menu after the key that opens and closes it, where `escape` says
    /// whether the key went down in this frame.
    pub open spec fn toggled(self, escape: bool) -> MenuView {
        if !escape {
            self
        } else {
            match self.state {
                MenuState::Closed => self.opened(),
                MenuState::Open => self.closed(),
            }
        }
    }

    /// The menu with the overlay of a closed menu swept away.
    pub open spec fn cleared(self) -> MenuView {
        match self.state {
            MenuState::Closed => MenuView { items: Seq::empty(), ..self },
            MenuState::Open => self,
        }
    }

    /// The menu after the check that begins every frame: what a button asked
    /// for comes about, then the key is heard, then a closed menu is swept.
    pub open spec fn checked(self, escape: bool) -> MenuView {
        self.settled().toggled(escape).cleared()
    }
}

/// The pause menu.
#[derive(Debug)]
pub struct Menu {
    state: MenuState,
    next_state: Option<MenuState>,
    items: Vec<MenuItem>,
}

impl View for Menu {
    type V = MenuView;

    closed spec fn view(&self) -> MenuView {
        MenuView { state: self.state, next_state: self.next_state, items: self.items@ }
    }
}

/// Makes the entities of the overlay.
pub fn spawn_overlay() -> (items: Vec<MenuItem>)
    ensures
        items@ == overlay(),
{
    let mut items: Vec<MenuItem> = Vec::new();
    items.push(text_item(Label::TankGame, 80, TextColor::Red, 30, None, None));
    items.push(text_item(Label::SpielPausiert, 50, TextColor::White, 15, None, None));
    items.push(text_item(Label::EscapeZumFortsetzen, 50, TextColor::White, 15, None, None));
    items.push(button_item(Control::FortsetzenButton));
    items.push(text_item(Label::Fortsetzen, 25, TextColor::White, 15, Some(3), None));
    items.push(button_item(Control::FPSButton));
    items.push(
        text_item(
            Label::FramerateLocked,
            25,
            TextColor::White,
            15,
            Some(5),
            Some(Control::FPSButton),
        ),
    );
    items.push(button_item(Control::QuitButton));
    items.push(
        text_item(
            Label::SpielBeenden,
            25,
            TextColor::White,
            15,
            Some(7),
            Some(Control::QuitButton),
        ),
    );
    assert(items@ =~= overlay());
    items
}

/// A line of text of the overlay.
fn text_item(
    label: Label,
    font_size: u32,
    color: TextColor,
    margin: u32,
    parent: Option<usize>,
    control: Option<Control>,
) -> (r: MenuItem)
    ensures
        r == MenuItem::text(label, font_size, color, margin, parent, control),
{
    MenuItem { widget: Widget::Text { label, font_size, color }, parent, control, margin }
}

/// A new button of the overlay.
fn button_item(control: Control) -> (r: MenuItem)
    ensures
        r == MenuItem::button(control),
{
    MenuItem {
        widget: Widget::Button { opacity: OPACITY_RAISED },
        parent: None,
        control: Some(control),
        margin: 15,
    }
}

impl Menu {
    /// The menu as the game begins.
    pub fn new() -> (r: Menu)
        ensures
            r@ == MenuView::initial(),
            r@.well_formed(),
    {
        Menu { state: MenuState::Closed, next_state: None, items: Vec::new() }
    }

    /// Whether the menu is open.
    pub fn state(&self) -> (r: MenuState)
        ensures
            r == self@.state,
    {
        self.state
    }

    /// The state that a button has asked for, if one has.
    pub fn next_state(&self) -> (r: Option<MenuState>)
        ensures
            r == self@.next_state,
    {
        self.next_state
    }

    /// The entities of the overlay.
    pub fn items(&self) -> (r: &Vec<MenuItem>)
        ensures
            r@ == self@.items,
    {
        &self.items
    }

    /// Whether a closed menu shows nothing and an open one the whole overlay.
    /// A menu that was made by `new` and only ever handed to the functions
    /// of this module is so.
    pub fn is_well_formed(&self) -> (r: bool)
        ensures
            r == self@.well_formed(),
    {
        match self.state {
            MenuState::Closed => self.items.len() == 0,
            MenuState::Open => {
                if self.items.len() != OVERLAY_SIZE {
                    return false;
                }
                let fresh = spawn_overlay();
                let mut i: usize = 0;
                while i < OVERLAY_SIZE
                    invariant
                        i <= OVERLAY_SIZE,
                        self.items@.len() == OVERLAY_SIZE,
                        fresh@ == overlay(),
                        forall|k: int|
                            0 <= k < i ==> (#[trigger] self.items@[k]).same_shape(overlay()[k]),
                    decreases OVERLAY_SIZE - i,
                {
                    if !self.items[i].has_shape_of(&fresh[i]) {
                        return false;
                    }
                    i += 1;
                }
                true
            },
        }
    }

    /// Asks for `state`; the next check of the menu brings it about.
    pub fn request(&mut self, state: MenuState)
        ensures
            final(self)@ == (MenuView { next_state: Some(state), ..old(self)@ }),
    {
        self.next_state = Some(state);
    }

    /// Opens the menu and makes the overlay.
    fn open(&mut self)
        ensures
            final(self)@ == old(self)@.opened(),
    {
        self.state = MenuState::Open;
        self.items = spawn_overlay();
    }

    /// Closes the menu and does away with the overlay.
    fn close(&mut self)
        ensures
            final(self)@ == old(self)@.closed(),
    {
        self.state = MenuState::Closed;
        self.items.clear();
        assert(self.items@ =~= Seq::empty());
    }

    /// Opens the menu if it is closed, and closes it if it is open, where
    /// `escape` says that the key for it has gone down in this frame.
    pub fn toggle(&mut self, escape: bool)
        ensures
            final(self)@ == old(self)@.toggled(escape),
    {
        if escape {
            match self.state {
                MenuState::Closed => self.open(),
                MenuState::Open => self.close(),
            }
        }
    }

    /// Sweeps away whatever a closed menu still shows.
    pub fn clear(&mut self)
        ensures
            final(self)@ == old(self)@.cleared(),
    {
        match self.state {
            MenuState::Closed => {
                self.items.clear();
                assert(self.items@ =~= Seq::empty());
            },
            MenuState::Open => {},
        }
    }

    /// The check of the menu that begins every frame, where `escape` says
    /// whether the key of the menu has gone down in this frame.
    pub fn check(&mut self, escape: bool)
        ensures
            final(self)@ == old(self)@.checked(escape),
    {
        self.apply_next_state();
        self.toggle(escape);
        self.clear();
    }

    /// Brings about what a button has asked for.
    pub fn apply_next_state(&mut self)
        ensures
            final(self)@ == old(self)@.settled(),
    {
        match self.next_state {
            Some(MenuState::Open) => {
                if self.state == MenuState::Closed {
                    self.open();
                }
            },
            Some(MenuState::Closed) => {
                if self.state == MenuState::Open {
                    self.close();
                }
            },
            None => {},
        }
        self.next_state = None;
    }
}

/// Reads the keyboard, and opens the menu if it is closed, and closes it if it
/// is open, when the key for it has gone down in this frame. The menu changes
/// at once: what runs later in the frame sees the new state.
pub fn toggle_menu(menu: &mut Menu, keyboard_inputs: &Input<KeyCode>)
    ensures
        final(menu)@ == old(menu)@.toggled(keys_in(keyboard_inputs).menu),
{
    menu.toggle(read_keys(keyboard_inputs).menu);
}

/// Sweeps away whatever a closed menu still shows.
pub fn clear_menu(menu: &mut Menu)
    ensures
        final(menu)@ == old(menu)@.cleared(),
{
    menu.clear();
}

/// Reads the keyboard and makes the check of the menu that begins every frame.
pub fn check_menu(menu: &mut Menu, keyboard_inputs: &Input<KeyCode>)
    ensures
        final(menu)@ == old(menu)@.checked(keys_in(keyboard_inputs).menu),
{
    menu.check(read_keys(keyboard_inputs).menu);
}

/// Whether `change` is a press of the button of `control`.
fn is_press(items: &Vec<MenuItem>, change: &InteractionChange, control: Control) -> (r: bool)
    ensures
        r == presses(items@, *change, control),
{
    match change.interaction {
        Interaction::Pressed => change.item < items.len() && items[change.item].button_of(control),
        _ => false,
    }
}

/// Whether one of `changes` is a press of the button of `control`.
fn any_press(
    items: &Vec<MenuItem>,
    changes: &Vec<InteractionChange>,
    control: Control,
) -> (r: bool)
    ensures
        r == pressed_in(items@, changes@, control),
{
    let mut i: usize = 0;
    while i < changes.len()
        invariant
            i <= changes.len(),
            forall|j: int| 0 <= j < i ==> !presses(items@, #[trigger] changes@[j], control),
        decreases changes.len() - i,
    {
        if is_press(items, &changes[i], control) {
            return true;
        }
        i += 1;
    }
    false
}

/// The place of the first child of the entity at place `parent`.
fn find_first_child(items: &Vec<MenuItem>, parent: usize) -> (r: Option<usize>)
    ensures
        match r {
            Some(child) => first_child(items@, parent as int) == Some(child as int) && child
                < items.len(),
            None => first_child(items@, parent as int) is None,
        },
{
    let mut i: usize = 0;
    while i < items.len()
        invariant
            i <= items.len(),
            first_child(items@, parent as int) == first_child_from(items@, parent as int, i as int),
        decreases items.len() - i,
    {
        match items[i].parent {
            Some(p) => {
                if p == parent {
                    return Some(i);
                }
            },
            None => {},
        }
        i += 1;
    }
    None
}

/// Raises the buttons that the pointer has come over and lets those rest that
/// it has left, whether the menu is open or not.
pub fn button_hower(menu: &mut Menu, changes: &Vec<InteractionChange>)
    ensures
        final(menu)@ == (MenuView {
            items: hover_all(old(menu)@.items, changes@),
            ..old(menu)@
        }),
        same_shapes(final(menu)@.items, old(menu)@.items),
        old(menu)@.well_formed() ==> final(menu)@.well_formed(),
        changes_are_plain(old(menu)@.items, Limiter::Auto, changes@),
{
    proof {
        lemma_changes_are_plain(old(menu)@.items, Limiter::Auto, changes@);
    }
    let mut i: usize = 0;
    while i < changes.len()
        invariant
            i <= changes.len(),
            menu.state == old(menu).state,
            menu.next_state == old(menu).next_state,
            menu.items@ == hover_all(old(menu)@.items, changes@.take(i as int)),
            menu.items@.len() == old(menu)@.items.len(),
            forall|k: int|
                0 <= k < menu.items@.len() ==> (#[trigger] menu.items@[k]).same_shape(
                    old(menu)@.items[k],
                ),
        decreases changes.len() - i,
    {
        assert(changes@.take(i + 1).drop_last() =~= changes@.take(i as int));
        let change = changes[i];
        if change.item < menu.items.len() {
            let item = menu.items[change.item];
            match item.widget {
                Widget::Button { opacity: _ } => match change.interaction {
                    Interaction::Hovered => {
                        menu.items[change.item] = MenuItem {
                            widget: Widget::Button { opacity: OPACITY_RAISED },
                            ..item
                        };
                    },
                    Interaction::Idle => {
                        menu.items[change.item] = MenuItem {
                            widget: Widget::Button { opacity: OPACITY_RESTING },
                            ..item
                        };
                    },
                    Interaction::Pressed => {},
                },
                _ => {},
            }
            assert(menu.items@ =~= hover(
                hover_all(old(menu)@.items, changes@.take(i as int)),
                change,
            ));
        }
        i += 1;
    }
    assert(changes@.take(i as int) =~= changes@);
}

/// Asks for the menu to close when the button that resumes the game has been
/// pressed. The menu closes at the next check, as the next frame begins.
pub fn fortsetzen_button(menu: &mut Menu, changes: &Vec<InteractionChange>)
    ensures
        final(menu)@ == (MenuView {
            next_state: if pressed_in(old(menu)@.items, changes@, Control::FortsetzenButton) {
                Some(MenuState::Closed)
            } else {
                old(menu)@.next_state
            },
            ..old(menu)@
        }),
        changes_are_plain(old(menu)@.items, Limiter::Auto, changes@),
{
    proof {
        lemma_changes_are_plain(old(menu)@.items, Limiter::Auto, changes@);
    }
    if any_press(&menu.items, changes, Control::FortsetzenButton) {
        menu.next_state = Some(MenuState::Closed);
    }
}

/// Whether the button that ends the game has been pressed. Whoever runs the
/// game then ends the process at once: nothing is asked and nothing is tidied.
pub fn quit_game_button(menu: &Menu, changes: &Vec<InteractionChange>) -> (quit: bool)
    ensures
        quit == pressed_in(menu@.items, changes@, Control::QuitButton),
        changes_are_plain(menu@.items, Limiter::Auto, changes@),
{
    proof {
        lemma_changes_are_plain(menu@.items, Limiter::Auto, changes@);
    }
    any_press(&menu.items, changes, Control::QuitButton)
}

/// Flips how the frame rate is held at each press of the button for it, and
/// says on the button what it then is.
pub fn toggle_framerate_lock(
    menu: &mut Menu,
    framerate_resource: &mut Limiter,
    changes: &Vec<InteractionChange>,
)
    ensures
        final(menu)@ == (MenuView {
            items: lock_toggled_all(old(menu)@.items, *old(framerate_resource), changes@).0,
            ..old(menu)@
        }),
        *final(framerate_resource) == lock_toggled_all(
            old(menu)@.items,
            *old(framerate_resource),
            changes@,
        ).1,
        same_shapes(final(menu)@.items, old(menu)@.items),
        old(menu)@.well_formed() ==> final(menu)@.well_formed(),
        changes_are_plain(old(menu)@.items, *old(framerate_resource), changes@),
{
    proof {
        lemma_changes_are_plain(old(menu)@.items, *old(framerate_resource), changes@);
    }
    let mut i: usize = 0;
    while i < changes.len()
        invariant
            i <= changes.len(),
            menu.state == old(menu).state,
            menu.next_state == old(menu).next_state,
            (menu.items@, *framerate_resource) == lock_toggled_all(
                old(menu)@.items,
                *old(framerate_resource),
                changes@.take(i as int),
            ),
            menu.items@.len() == old(menu)@.items.len(),
            forall|k: int|
                0 <= k < menu.items@.len() ==> (#[trigger] menu.items@[k]).same_shape(
                    old(menu)@.items[k],
                ),
        decreases changes.len() - i,
    {
        assert(changes@.take(i + 1).drop_last() =~= changes@.take(i as int));
        let change = changes[i];
        if is_press(&menu.items, &change, Control::FPSButton) {
            let next = match *framerate_resource {
                Limiter::Auto => Limiter::Off,
                _ => Limiter::Auto,
            };
            let label = match next {
                Limiter::Off => Label::FramerateUnlocked,
                _ => Label::FramerateLocked,
            };
            *framerate_resource = next;
            match find_first_child(&menu.items, change.item) {
                Some(child) => {
                    let item = menu.items[child];
                    match (item.widget, item.control) {
                        (
                            Widget::Text { label: _, font_size, color },
                            Some(Control::FPSButton),
                        ) => {
                            menu.items[child] = MenuItem {
                                widget: Widget::Text { label, font_size, color },
                                ..item
                            };
                        },
                        _ => {},
                    }
                },
                None => {},
            }
        }
        i += 1;
    }
    assert(changes@.take(i as int) =~= changes@);
}

/// No change changes nothing and presses nothing, and a single change is
/// served as the rules for one change say.
pub proof fn lemma_changes_are_plain(
    items: Seq<MenuItem>,
    limiter: Limiter,
    changes: Seq<InteractionChange>,
)
    ensures
        changes_are_plain(items, limiter, changes),
{
    if changes.len() == 1 {
        assert(changes.drop_last().len() == 0);
        assert(hover_all(items, changes.drop_last()) == items);
        assert(lock_toggled_all(items, limiter, changes.drop_last()) == (items, limiter));
        assert forall|control: Control| #[trigger]
            pressed_in(items, changes, control) == presses(items, changes[0], control) by {
            if presses(items, changes[0], control) {
                assert(pressed_in(items, changes, control));
            }
        }
    }
}

/// Which button a press goes to does not depend on what the buttons look like
/// or say: overlays that differ in that alone see the same presses.
pub proof fn lemma_presses_ignore_looks(
    a: Seq<MenuItem>,
    b: Seq<MenuItem>,
    changes: Seq<InteractionChange>,
    control: Control,
)
    requires
        same_shapes(a, b),
    ensures
        pressed_in(a, changes, control) == pressed_in(b, changes, control),
{
    assert forall|i: int| 0 <= i < changes.len() implies presses(a, #[trigger] changes[i], control)
        == presses(b, changes[i], control) by {
        let change = changes[i];
        if change.item < a.len() {
            assert(a[change.item as int].same_shape(b[change.item as int]));
        }
    }
}

/// Opening a closed menu shows exactly the overlay, with its fixed number of
/// entities, and closing it again leaves none of them.
pub proof fn lemma_overlay_lifecycle(menu: MenuView)
    requires
        menu.state == MenuState::Closed,
    ensures
        menu.toggled(true).state == MenuState::Open,
        menu.toggled(true).items == overlay(),
        menu.toggled(true).items.len() == OVERLAY_SIZE,
        menu.toggled(true).toggled(true).state == MenuState::Closed,
        menu.toggled(true).toggled(true).items.len() == 0,
        menu.toggled(true).toggled(true).toggled(true).items == overlay(),
{
}

/// The same holds of whole checks of the menu, frame after frame, as long as
/// no button asks for anything: the key opens the menu on the overlay, made
/// from scratch, and closes it on nothing.
pub proof fn lemma_overlay_lifecycle_by_checks(menu: MenuView)
    requires
        menu.state == MenuState::Closed,
        menu.next_state is None,
    ensures
        menu.checked(true).state == MenuState::Open,
        menu.checked(true).items == overlay(),
        menu.checked(true).checked(false) == menu.checked(true),
        menu.checked(true).checked(true).state == MenuState::Closed,
        menu.checked(true).checked(true).items.len() == 0,
        menu.checked(true).checked(true).checked(true).items == overlay(),
{
}

/// Whatever the key and the buttons do, a closed menu shows nothing and an open
/// one shows the whole overlay.
pub proof fn lemma_check_keeps_well_formed(menu: MenuView, escape: bool)
    requires
        menu.well_formed(),
    ensures
        menu.checked(escape).well_formed(),
        menu.checked(escape).next_state is None,
{
}

} // verus!
