//! The pages of the terminal wizard as far as they decide anything: what a
//! key does, where the logo goes, which tab is lit.

use vstd::prelude::*;
use crate::text::views;

verus! {

/// A key as the wizard tells keys apart.
#[derive(Clone, Copy, Debug, PartialEq, Eq, Structural)]
pub enum Key {
    Char(char),
    Left,
    Right,
    Other,
}

/// What the pages share: the key that was pressed, if any, whether the
/// wizard goes on, and the page that is shown.
#[derive(Clone, Copy, Debug, PartialEq, Eq, Structural)]
pub struct UiState {
    pub key: Option<Key>,
    pub runnable: bool,
    pub step: usize,
}

/// The welcome page.
#[derive(Clone, Copy, Debug)]
pub struct Welcome;

/// The install page.
#[derive(Clone, Copy, Debug)]
pub struct Install;

/// The key that leaves the wizard.
pub open spec fn is_quit(key: Key) -> bool {
    key == Key::Char('q')
}

/// What the welcome page makes of a state: `q` stops the wizard, any other
/// key turns to the install page, and without a key nothing changes.
pub open spec fn welcome_processed(s: UiState) -> UiState {
    match s.key {
        Some(key) => if is_quit(key) {
            UiState { runnable: false, ..s }
        } else {
            UiState { step: 1, ..s }
        },
        None => s,
    }
}

/// What the install page makes of a state: `q` stops the wizard, the left
/// arrow turns back to the welcome page, and nothing else changes anything.
pub open spec fn install_processed(s: UiState) -> UiState {
    match s.key {
        Some(key) => if is_quit(key) {
            UiState { runnable: false, ..s }
        } else if key == Key::Left {
            UiState { step: 0, ..s }
        } else {
            s
        },
        None => s,
    }
}

fn quits(key: Key) -> (b: bool)
    ensures
        b == is_quit(key),
{
    match key {
        Key::Char(c) => c == 'q',
        _ => false,
    }
}

impl Welcome {
    /// The welcome page.
    pub fn new() -> (page: Welcome) {
        Self
    }

    /// Handles the key of `ui_state`.
    pub fn process(&mut self, ui_state: &mut UiState)
        ensures
            *final(ui_state) == welcome_processed(*old(ui_state)),
    {
        match ui_state.key {
            Some(key) => {
                if quits(key) {
                    ui_state.runnable = false;
                } else {
                    ui_state.step = 1;
                }
            },
            None => {},
        }
    }
}

impl Install {
    /// The install page.
    pub fn new() -> (page: Install) {
        Self
    }

    /// Handles the key of `ui_state`.
    pub fn process(&mut self, ui_state: &mut UiState)
        ensures
            *final(ui_state) == install_processed(*old(ui_state)),
    {
        match ui_state.key {
            Some(key) => {
                if quits(key) {
                    ui_state.runnable = false;
                } else {
                    match key {
                        Key::Left => {
                            ui_state.step = 0;
                        },
                        _ => {},
                    }
                }
            },
            None => {},
        }
    }
}

/// A rectangle on the screen.
#[derive(Clone, Copy, Debug, PartialEq, Eq, Structural)]
pub struct Rect {
    pub x: u16,
    pub y: u16,
    pub width: u16,
    pub height: u16,
}

/// Where a span of `size` cells starts when it is centred in `frame`
/// cells: the middle of the frame less half the span, and zero when that
/// would lie before the frame.
pub open spec fn centred_start(frame: u16, size: u16) -> int {
    if frame / 2 >= size / 2 {
        frame / 2 - size / 2
    } else {
        0
    }
}

/// How much of the span is shown: all of it, or nothing when it does not
/// fit between its start and the end of the frame.
pub open spec fn centred_size(frame: u16, size: u16) -> int {
    if size + centred_start(frame, size) > frame {
        0
    } else {
        size as int
    }
}

fn centre(frame: u16, size: u16) -> (r: (u16, u16))
    ensures
        r.0 == centred_start(frame, size),
        r.1 == centred_size(frame, size),
{
    let start: u16 = if frame / 2 >= size / 2 {
        frame / 2 - size / 2
    } else {
        0
    };
    let shown: u16 = if size as u32 + start as u32 > frame as u32 {
        0
    } else {
        size
    };
    (start, shown)
}

/// The place of a logo of `width` by `height` cells in the middle of a
/// frame. A logo that does not fit hides: its width or height is zero.
pub fn centered(frame_width: u16, frame_height: u16, width: u16, height: u16) -> (r: Rect)
    ensures
        r.x == centred_start(frame_width, width),
        r.y == centred_start(frame_height, height),
        r.width == centred_size(frame_width, width),
        r.height == centred_size(frame_height, height),
        r.x + r.width <= frame_width,
        r.y + r.height <= frame_height,
{
    let (x, shown_width) = centre(frame_width, width);
    let (y, shown_height) = centre(frame_height, height);
    Rect { x, y, width: shown_width, height: shown_height }
}

/// The wizard as a whole: the page that is shown.
#[derive(Clone, Copy, Debug)]
pub struct Ui {
    step: usize,
}

impl View for Ui {
    type V = nat;

    closed spec fn view(&self) -> nat {
        self.step as nat
    }
}

/// The page shown after a key: the left arrow goes back one page, the
/// right arrow goes on one page, any other key leaves the first page for
/// the second, and `q` changes nothing.
pub open spec fn page_after(step: nat, key: Key) -> nat {
    if is_quit(key) {
        step
    } else if key == Key::Left && step > 0 {
        (step - 1) as nat
    } else if key == Key::Right {
        if step < usize::MAX {
            step + 1
        } else {
            step
        }
    } else if step == 0 {
        1
    } else {
        step
    }
}

impl Ui {
    /// The wizard on its first page.
    pub fn setup() -> (ui: Ui)
        ensures
            ui@ == 0,
    {
        Ui { step: 0 }
    }

    /// The page that is shown.
    pub fn step(&self) -> (s: usize)
        ensures
            s == self@,
    {
        self.step
    }

    /// Handles a key. Returns whether the wizard goes on: it stops on `q`.
    pub fn exec(&mut self, key: Key) -> (running: bool)
        ensures
            running == !is_quit(key),
            final(self)@ == page_after(old(self)@, key),
    {
        if quits(key) {
            return false;
        }
        match key {
            Key::Left => {
                if self.step > 0 {
                    self.step = self.step - 1;
                } else {
                    self.step = 1;
                }
            },
            Key::Right => {
                if self.step < usize::MAX {
                    self.step = self.step + 1;
                }
            },
            _ => {
                if self.step == 0 {
                    self.step = 1;
                }
            },
        }
        true
    }
}

/// One piece of the tab bar: the title of a tab and what is drawn after it.
#[derive(Debug)]
pub struct BarSegment {
    /// The title of the tab.
    pub title: String,
    /// What separates the tab from the next one: ` > `, and nothing after
    /// the last tab.
    pub separator: &'static str,
    /// Whether the tab is the one shown, and so the one to light up.
    pub active: bool,
}

/// Mathematical model of a piece of the tab bar.
pub struct BarSegmentView {
    pub title: Seq<char>,
    pub separator: Seq<char>,
    pub active: bool,
}

impl View for BarSegment {
    type V = BarSegmentView;

    open spec fn view(&self) -> BarSegmentView {
        BarSegmentView { title: self.title@, separator: self.separator@, active: self.active }
    }
}

/// Mathematical model of the tabs: the frame's title, the tab titles in
/// order, and the position of the tab that is shown.
pub struct TabsView {
    pub title: Seq<char>,
    pub titles: Seq<Seq<char>>,
    pub active: nat,
}

impl TabsView {
    /// The shown tab is one of the tabs; without tabs it is position zero.
    pub open spec fn wf(self) -> bool {
        if self.titles.len() == 0 {
            self.active == 0
        } else {
            self.active < self.titles.len()
        }
    }

    /// One tab further, unless the shown tab is the last or there is none.
    pub open spec fn next(self) -> TabsView {
        if self.titles.len() == 0 || self.active + 1 == self.titles.len() {
            self
        } else {
            TabsView { active: self.active + 1, ..self }
        }
    }

    /// One tab back, unless the shown tab is the first.
    pub open spec fn prev(self) -> TabsView {
        if self.active == 0 {
            self
        } else {
            TabsView { active: (self.active - 1) as nat, ..self }
        }
    }

    /// The piece of the bar for the tab at position `i`.
    pub open spec fn segment(self, i: int) -> BarSegmentView {
        BarSegmentView {
            title: self.titles[i],
            separator: if i + 1 == self.titles.len() {
                ""@
            } else {
                " > "@
            },
            active: i == self.active,
        }
    }

    /// The bar: one piece per tab, in order.
    pub open spec fn bar(self) -> Seq<BarSegmentView> {
        Seq::new(self.titles.len(), |i: int| self.segment(i))
    }
}

/// The tabs of the wizard: a row of titles one of which is lit.
#[derive(Debug)]
pub struct StepTabs {
    title: String,
    titles: Vec<String>,
    active: usize,
}

impl View for StepTabs {
    type V = TabsView;

    closed spec fn view(&self) -> TabsView {
        TabsView {
            title: self.title@,
            titles: crate::text::texts(self.titles@),
            active: self.active as nat,
        }
    }
}

impl StepTabs {
    #[verifier::type_invariant]
    spec fn shown_is_a_tab(self) -> bool {
        if self.titles@.len() == 0 {
            self.active == 0
        } else {
            self.active < self.titles@.len()
        }
    }

    /// Tabs without a tab and without a title.
    pub fn new() -> (tabs: StepTabs)
        ensures
            tabs@ == (TabsView { title: Seq::empty(), titles: Seq::empty(), active: 0 }),
    {
        let tabs = StepTabs { title: String::new(), titles: Vec::new(), active: 0 };
        assert(tabs@.titles =~= Seq::<Seq<char>>::empty());
        tabs
    }

    /// The same tabs under a title.
    pub fn title(self, title: String) -> (tabs: StepTabs)
        ensures
            tabs@ == (TabsView { title: title@, ..self@ }),
    {
        proof {
            use_type_invariant(&self);
        }
        StepTabs { title, titles: self.titles, active: self.active }
    }

    /// The same tabs with one more tab at the end.
    pub fn with_tab(self, name: String) -> (tabs: StepTabs)
        ensures
            tabs@ == (TabsView { titles: self@.titles.push(name@), ..self@ }),
            self@.wf(),
            tabs@.wf(),
    {
        proof {
            use_type_invariant(&self);
        }
        let mut titles = self.titles;
        titles.push(name);
        let tabs = StepTabs { title: self.title, titles, active: self.active };
        assert(tabs@.titles =~= self@.titles.push(name@));
        tabs
    }

    /// The position of the tab that is shown.
    pub fn active_tab(&self) -> (i: usize)
        ensures
            i == self@.active,
            self@.wf(),
    {
        proof {
            use_type_invariant(self);
        }
        self.active
    }

    /// Turns to the next tab, if there is one.
    pub fn next(&mut self)
        ensures
            final(self)@ == old(self)@.next(),
            final(self)@.wf(),
    {
        proof {
            use_type_invariant(&*self);
        }
        if self.titles.len() == 0 || self.active + 1 == self.titles.len() {
            return ;
        }
        self.active = self.active + 1;
    }

    /// Turns to the tab before, if there is one.
    pub fn prev(&mut self)
        ensures
            final(self)@ == old(self)@.prev(),
            final(self)@.wf(),
    {
        proof {
            use_type_invariant(&*self);
        }
        if self.active == 0 {
            return ;
        }
        self.active = self.active - 1;
    }

    /// The bar to draw: the titles in order, ` > ` between them, the shown one lit.
    pub fn update_bar(&self) -> (bar: Vec<BarSegment>)
        ensures
            views(bar@) == self@.bar(),
    {
        let mut bar: Vec<BarSegment> = Vec::new();
        let mut i: usize = 0;
        while i < self.titles.len()
            invariant
                i <= self.titles@.len(),
                bar@.len() == i,
                forall|j: int| 0 <= j < i ==> (#[trigger] bar@[j])@ == self@.segment(j),
            decreases self.titles@.len() - i,
        {
            let separator = if i + 1 == self.titles.len() {
                ""
            } else {
                " > "
            };
            bar.push(
                BarSegment { title: self.titles[i].clone(), separator, active: i == self.active },
            );
            i = i + 1;
        }
        assert(views(bar@) =~= self@.bar());
        bar
    }
}

} // verus!
