use vstd::prelude::*;

use crate::geometry::Shape;
use crate::registry::{ShapeKind, ShapeRegistry};

verus! {

/// Which pointer button an event is about.
#[derive(Clone, Copy, Debug, PartialEq, Eq, Structural)]
pub enum PointerButton {
    /// The left button, which selects the next shape.
    Primary,
    Secondary,
    Middle,
    Back,
    Forward,
    Other(u16),
}

#[derive(Clone, Copy, Debug, PartialEq, Eq, Structural)]
pub enum ButtonState {
    Pressed,
    Released,
}

/// What the window reports to the viewer.
#[derive(Clone, Copy, Debug, PartialEq, Eq, Structural)]
pub enum InputEvent {
    Pointer { button: PointerButton, state: ButtonState },
    Resized { width: u32, height: u32 },
    CloseRequested,
    /// Nothing is pending.
    Idle,
}

/// What the viewer asks the window to do after an event.
#[derive(Clone, Copy, Debug, PartialEq, Eq, Structural)]
pub enum Action {
    Nothing,
    /// Generate the shape at `cursor` and draw one frame of it.
    Render { cursor: usize },
    /// Give the drawing surface new dimensions.
    ResizeSurface { width: u32, height: u32 },
    /// Ask for a chance to redraw.
    RequestRedraw,
    /// Stop the event loop.
    Exit,
}

/// The state of the viewer, as a value.
pub struct ViewerModel {
    pub kinds: Seq<ShapeKind>,
    pub cursor: int,
    pub width: u32,
    pub height: u32,
    pub closed: bool,
}

impl ViewerModel {
    pub open spec fn wf(self) -> bool {
        crate::registry::kinds_valid(self.kinds) && 0 <= self.cursor < self.kinds.len()
    }

    /// The kind that is on screen.
    pub open spec fn current(self) -> ShapeKind {
        self.kinds[self.cursor]
    }
}

pub open spec fn is_select(e: InputEvent) -> bool {
    e == InputEvent::Pointer { button: PointerButton::Primary, state: ButtonState::Pressed }
}

/// The state after `e`, and what the window must do.
pub open spec fn next(m: ViewerModel, e: InputEvent) -> (ViewerModel, Action) {
    if m.closed {
        (m, Action::Nothing)
    } else {
        match e {
            InputEvent::Pointer { .. } => if is_select(e) {
                let c = (m.cursor + 1) % (m.kinds.len() as int);
                (ViewerModel { cursor: c, ..m }, Action::Render { cursor: c as usize })
            } else {
                (m, Action::Nothing)
            },
            InputEvent::Resized { width, height } => (
                ViewerModel { width, height, ..m },
                Action::ResizeSurface { width, height },
            ),
            InputEvent::CloseRequested => (ViewerModel { closed: true, ..m }, Action::Exit),
            InputEvent::Idle => (m, Action::RequestRedraw),
        }
    }
}

/// The state after `n` select clicks.
pub open spec fn after_clicks(m: ViewerModel, n: nat) -> ViewerModel
    decreases n,
{
    if n == 0 {
        m
    } else {
        next(
            after_clicks(m, (n - 1) as nat),
            InputEvent::Pointer { button: PointerButton::Primary, state: ButtonState::Pressed },
        ).0
    }
}

/// The viewer: a registry of shapes, the position of the one on screen, and
/// the size of the drawing surface.
pub struct Viewer {
    registry: ShapeRegistry,
    cursor: usize,
    width: u32,
    height: u32,
    closed: bool,
}

impl View for Viewer {
    type V = ViewerModel;

    closed spec fn view(&self) -> ViewerModel {
        ViewerModel {
            kinds: self.registry@,
            cursor: self.cursor as int,
            width: self.width,
            height: self.height,
            closed: self.closed,
        }
    }
}

impl Viewer {
    /// A viewer showing the first registered shape on a surface of the given
    /// size.
    pub fn new(registry: ShapeRegistry, width: u32, height: u32) -> (r: Viewer)
        requires
            registry.wf(),
        ensures
            r@ == (ViewerModel { kinds: registry@, cursor: 0, width, height, closed: false }),
            r@.wf(),
    {
        Viewer { registry, cursor: 0, width, height, closed: false }
    }

    /// The standard shapes on a surface of the given size.
    pub fn standard(width: u32, height: u32) -> (r: Viewer)
        ensures
            r@ == (ViewerModel {
                kinds: crate::registry::standard_kinds(),
                cursor: 0,
                width,
                height,
                closed: false,
            }),
            r@.wf(),
    {
        Viewer::new(ShapeRegistry::standard(), width, height)
    }

    pub fn cursor(&self) -> (r: usize)
        ensures
            r == self@.cursor,
    {
        self.cursor
    }

    pub fn surface_size(&self) -> (r: (u32, u32))
        ensures
            r == (self@.width, self@.height),
    {
        (self.width, self.height)
    }

    pub fn is_closed(&self) -> (r: bool)
        ensures
            r == self@.closed,
    {
        self.closed
    }

    /// The kind on screen.
    pub fn current_kind(&self) -> (r: ShapeKind)
        requires
            self@.wf(),
        ensures
            r == self@.current(),
    {
        self.registry.at(self.cursor)
    }

    /// Generates the shape on screen afresh.
    pub fn current_shape(&self) -> (r: Shape)
        requires
            self@.wf(),
        ensures
            r@ == self@.current().model(),
    {
        let k = self.registry.at(self.cursor);
        k.generate()
    }

    /// Takes one event: updates the state and says what the window must do.
    pub fn handle(&mut self, event: InputEvent) -> (r: Action)
        requires
            old(self)@.wf(),
        ensures
            final(self)@.wf(),
            (final(self)@, r) == next(old(self)@, event),
    {
        if self.closed {
            return Action::Nothing;
        }
        match event {
            InputEvent::Pointer { button, state } => {
                match (button, state) {
                    (PointerButton::Primary, ButtonState::Pressed) => {
                        let n = self.registry.count();
                        self.cursor = (self.cursor + 1) % n;
                        Action::Render { cursor: self.cursor }
                    },
                    _ => Action::Nothing,
                }
            },
            InputEvent::Resized { width, height } => {
                self.width = width;
                self.height = height;
                Action::ResizeSurface { width, height }
            },
            InputEvent::CloseRequested => {
                self.closed = true;
                Action::Exit
            },
            InputEvent::Idle => Action::RequestRedraw,
        }
    }
}

} // verus!

verus! {

/// From any open state, `n` select clicks move the cursor `n` places on,
/// wrapping around the registry, and change nothing else.
pub proof fn lemma_clicks_advance(m: ViewerModel, n: nat)
    requires
        m.wf(),
        !m.closed,
    ensures
        after_clicks(m, n) == (ViewerModel { cursor: (m.cursor + n) % (m.kinds.len() as int), ..m }),
    decreases n,
{
    let len = m.kinds.len() as int;
    if n == 0 {
        vstd::arithmetic::div_mod::lemma_small_mod(m.cursor as nat, len as nat);
    } else {
        lemma_clicks_advance(m, (n - 1) as nat);
        vstd::arithmetic::div_mod::lemma_add_mod_noop_right(1, m.cursor + n - 1, len);
    }
}

/// As many select clicks as there are shapes bring the cursor back to where
/// it started; starting from the first shape, click `k` shows shape
/// `k mod N`.
pub proof fn lemma_full_cycle(m: ViewerModel)
    requires
        m.wf(),
        !m.closed,
    ensures
        after_clicks(m, m.kinds.len()) == m,
        m.cursor == 0 ==> forall|k: nat| #[trigger] after_clicks(m, k).cursor == (k as int) % (m.kinds.len() as int),
{
    let len = m.kinds.len() as int;
    lemma_clicks_advance(m, m.kinds.len());
    vstd::arithmetic::div_mod::lemma_add_mod_noop(m.cursor, len, len);
    vstd::arithmetic::div_mod::lemma_mod_self_0(len);
    vstd::arithmetic::div_mod::lemma_small_mod(m.cursor as nat, len as nat);
    assert(after_clicks(m, m.kinds.len()) =~= m);
    if m.cursor == 0 {
        assert forall|k: nat| #[trigger] after_clicks(m, k).cursor == (k as int) % len by {
            lemma_clicks_advance(m, k);
        }
    }
}

/// A press of any other button, and any release, leaves the state as it was
/// and asks for nothing.
pub proof fn lemma_other_pointer_events_ignored(m: ViewerModel, button: PointerButton, state: ButtonState)
    requires
        button != PointerButton::Primary || state == ButtonState::Released,
    ensures
        next(m, InputEvent::Pointer { button, state }) == (m, Action::Nothing),
{
}

/// A resize records the new dimensions and only those: the cursor stays and
/// no shape is generated; the window is asked to resize its surface.
pub proof fn lemma_resize_only_dimensions(m: ViewerModel, width: u32, height: u32)
    requires
        !m.closed,
    ensures
        next(m, InputEvent::Resized { width, height }).0 == (ViewerModel { width, height, ..m }),
        next(m, InputEvent::Resized { width, height }).0.cursor == m.cursor,
        next(m, InputEvent::Resized { width, height }).1 == (Action::ResizeSurface { width, height }),
{
}

} // verus!
