//! Window handles, the request queue and the mirrored window-state table.
//!
//! Application code asks for windows to be opened and closed; the event loop
//! drains those requests, creates the real windows and writes their geometry
//! back. All of that shared state lives in one [`WindowContext`], which the
//! runtime owns and hands to every function here. Nothing in this module
//! talks to the event loop itself: a function that has to wake it records a
//! [`RinchEvent`] in the context, and the runtime forwards what it finds
//! there.

use std::collections::HashMap;
use vstd::prelude::*;
use vstd::std_specs::iter::IteratorSpec;
use winit::window::WindowId;

verus! {

broadcast use vstd::std_specs::hash::group_hash_axioms;

/// `winit::window::WindowId`, the identifier winit gives an OS window. Its
/// contents are hidden: a value is stored, compared in contracts and handed
/// back, never inspected.
#[verifier::external_type_specification]
#[verifier::external_body]
pub struct ExWindowId(winit::window::WindowId);

/// A handle to a window that was asked for through [`open_window`].
///
/// Handles are plain keys: copying one copies no resource, and holding one
/// keeps no window alive.
#[derive(Debug, Clone, Copy, PartialEq, Eq, Hash, Structural)]
pub struct WindowHandle(u64);

impl WindowHandle {
    /// The handle's number in contracts.
    pub closed spec fn spec_id(self) -> u64 {
        self.0
    }

    /// Issues the handle numbered `*counter` and advances the counter.
    pub(crate) fn new(counter: &mut u64) -> (handle: WindowHandle)
        requires
            *old(counter) < u64::MAX,
        ensures
            handle.spec_id() == *old(counter),
            *final(counter) == *old(counter) + 1,
    {
        let id: u64 = *counter;
        *counter = id + 1;
        WindowHandle(id)
    }

    /// Get the internal ID of this handle.
    pub fn id(&self) -> (id: u64)
        ensures
            id == self.spec_id(),
    {
        self.0
    }
}

/// Two handles with the same number are the same handle.
pub proof fn lemma_handle_determined_by_id(a: WindowHandle, b: WindowHandle)
    ensures
        a.spec_id() == b.spec_id() <==> a == b,
{
}

/// What a window should look like when it is created.
#[derive(Debug, Clone)]
pub struct WindowProps {
    /// Text of the title bar.
    pub title: String,
    /// Width of the content area.
    pub width: u32,
    /// Height of the content area.
    pub height: u32,
    /// Horizontal position, where the caller asked for one.
    pub x: Option<i32>,
    /// Vertical position, where the caller asked for one.
    pub y: Option<i32>,
    /// Whether the user may resize the window.
    pub resizable: bool,
    /// Whether the window has no frame.
    pub borderless: bool,
    /// Whether the window's background is see-through.
    pub transparent: bool,
    /// Whether the window stays above the others.
    pub always_on_top: bool,
}

impl WindowProps {
    /// Whether `self` is the default set of properties.
    pub open spec fn is_default(self) -> bool {
        &&& self.title@ == "Rinch Window"@
        &&& self.width == 800
        &&& self.height == 600
        &&& self.x == None::<i32>
        &&& self.y == None::<i32>
        &&& self.resizable
        &&& !self.borderless
        &&& !self.transparent
        &&& !self.always_on_top
    }
}

impl Default for WindowProps {
    fn default() -> (props: WindowProps)
        ensures
            props.is_default(),
    {
        WindowProps {
            title: "Rinch Window".to_owned(),
            width: 800,
            height: 600,
            x: None,
            y: None,
            resizable: true,
            borderless: false,
            transparent: false,
            always_on_top: false,
        }
    }
}

/// A request to open a new window.
#[derive(Debug, Clone)]
pub struct OpenWindowRequest {
    /// The handle that will identify this window.
    pub handle: WindowHandle,
    /// Window properties.
    pub props: WindowProps,
    /// HTML content for the window.
    pub html_content: String,
}

/// A request to close a window.
#[derive(Debug, Clone, Copy)]
pub struct CloseWindowRequest {
    /// The handle of the window to close.
    pub handle: WindowHandle,
}

/// Window request types.
#[derive(Debug, Clone)]
pub enum WindowRequest {
    Open(OpenWindowRequest),
    Close(CloseWindowRequest),
}

impl WindowRequest {
    /// The handle that the request is about.
    pub open spec fn spec_handle(self) -> WindowHandle {
        match self {
            WindowRequest::Open(r) => r.handle,
            WindowRequest::Close(r) => r.handle,
        }
    }

    /// The handle that the request is about.
    pub fn handle(&self) -> (handle: WindowHandle)
        ensures
            handle == self.spec_handle(),
    {
        match self {
            WindowRequest::Open(r) => r.handle,
            WindowRequest::Close(r) => r.handle,
        }
    }
}

/// Current state of a window (position, size).
///
/// This can be used by applications to save and restore window state.
#[derive(Debug, Clone, Copy, PartialEq, Eq, Structural)]
pub struct WindowState {
    /// X position of the window (outer position).
    pub x: i32,
    /// Y position of the window (outer position).
    pub y: i32,
    /// Width of the window content area.
    pub width: u32,
    /// Height of the window content area.
    pub height: u32,
    /// Whether the window is maximized.
    pub maximized: bool,
    /// Whether the window is minimized.
    pub minimized: bool,
}

impl WindowState {
    /// The state assumed of a window before the event loop has reported
    /// anything about it.
    pub open spec fn nominal() -> WindowState {
        WindowState { x: 0, y: 0, width: 800, height: 600, maximized: false, minimized: false }
    }
}

impl Default for WindowState {
    fn default() -> (state: WindowState)
        ensures
            state == WindowState::nominal(),
    {
        WindowState { x: 0, y: 0, width: 800, height: 600, maximized: false, minimized: false }
    }
}

/// What the event loop is told. The runtime sends each of these through its
/// event-loop proxy.
#[derive(Debug, Clone, Copy, PartialEq, Eq)]
pub enum RinchEvent {
    /// Requests are waiting in the queue.
    ProcessWindowRequests,
    /// Minimize the window.
    MinimizeWindow { window_id: WindowId },
    /// Maximize the window, or restore it if it is maximized.
    ToggleMaximizeWindow { window_id: WindowId },
    /// Close the window.
    CloseWindowControl { window_id: WindowId },
}

/// The three things that a window's own controls can ask for.
#[derive(Debug, Clone, Copy, PartialEq, Eq, Structural)]
pub enum WindowControl {
    Minimize,
    ToggleMaximize,
    Close,
}

impl WindowControl {
    /// The event that asks for this control on window `window_id`.
    pub open spec fn spec_event(self, window_id: WindowId) -> RinchEvent {
        match self {
            WindowControl::Minimize => RinchEvent::MinimizeWindow { window_id },
            WindowControl::ToggleMaximize => RinchEvent::ToggleMaximizeWindow { window_id },
            WindowControl::Close => RinchEvent::CloseWindowControl { window_id },
        }
    }

    /// The event that asks for this control on window `window_id`.
    pub fn event(self, window_id: WindowId) -> (event: RinchEvent)
        ensures
            event == self.spec_event(window_id),
    {
        match self {
            WindowControl::Minimize => RinchEvent::MinimizeWindow { window_id },
            WindowControl::ToggleMaximize => RinchEvent::ToggleMaximizeWindow { window_id },
            WindowControl::Close => RinchEvent::CloseWindowControl { window_id },
        }
    }
}

/// One step that application code or the event loop can take on a
/// [`WindowContext`]: each stands for the function of the same meaning.
pub enum WindowOp {
    /// [`open_window`].
    Open { props: WindowProps, html_content: String },
    /// [`close_window`].
    Close { handle: WindowHandle },
    /// [`take_window_requests`].
    TakeRequests,
    /// [`take_signals`].
    TakeSignals,
    /// [`update_window_state`].
    UpdateState { handle: WindowHandle, state: WindowState },
    /// [`remove_window_state`].
    RemoveState { handle: WindowHandle },
    /// [`set_current_window_id`].
    SetCurrent { window_id: Option<WindowId> },
    /// [`set_event_proxy`].
    SetEventProxy { attached: bool },
    /// One of the three controls of the current window.
    Control { control: WindowControl },
}

impl WindowOp {
    /// Whether the step records a state for `handle`.
    pub open spec fn records(self, handle: WindowHandle) -> bool {
        self matches WindowOp::UpdateState { handle: h, .. } && h == handle
    }

    /// Whether the step drops the record of `handle`.
    pub open spec fn forgets(self, handle: WindowHandle) -> bool {
        self matches WindowOp::RemoveState { handle: h } && h == handle
    }
}

/// The mathematical content of a [`WindowContext`].
pub struct WindowContextView {
    /// The number that the next handle will carry.
    pub next_id: nat,
    /// Requests not yet taken by the event loop, oldest first.
    pub requests: Seq<WindowRequest>,
    /// Last reported state of each window, keyed by the handle's number.
    pub states: Map<u64, WindowState>,
    /// The window whose event is being dispatched, if any.
    pub current: Option<WindowId>,
    /// Whether an event loop is attached to receive signals.
    pub attached: bool,
    /// Signals not yet forwarded to the event loop, oldest first.
    pub signals: Seq<RinchEvent>,
}

impl WindowContextView {
    /// The content of a fresh context.
    pub open spec fn initial() -> WindowContextView {
        WindowContextView {
            next_id: 1,
            requests: Seq::empty(),
            states: Map::empty(),
            current: None,
            attached: false,
            signals: Seq::empty(),
        }
    }

    /// The signals after one more signal was raised: recorded when an
    /// event loop is attached, dropped when none is.
    pub open spec fn signalled(self, event: RinchEvent) -> Seq<RinchEvent> {
        if self.attached {
            self.signals.push(event)
        } else {
            self.signals
        }
    }

    /// The content after `request` was queued and the event loop signalled.
    pub open spec fn enqueued(self, request: WindowRequest) -> WindowContextView {
        WindowContextView {
            requests: self.requests.push(request),
            signals: self.signalled(RinchEvent::ProcessWindowRequests),
            ..self
        }
    }

    /// The content after a window was opened with the given handle.
    pub open spec fn opened(
        self,
        handle: WindowHandle,
        props: WindowProps,
        html_content: String,
    ) -> WindowContextView {
        WindowContextView {
            next_id: self.next_id + 1,
            ..self.enqueued(
                WindowRequest::Open(OpenWindowRequest { handle, props, html_content }),
            )
        }
    }

    /// The content after the queue was drained.
    pub open spec fn drained(self) -> WindowContextView {
        WindowContextView { requests: Seq::empty(), ..self }
    }

    /// The content after `state` was recorded for `handle`.
    pub open spec fn updated(self, handle: WindowHandle, state: WindowState) -> WindowContextView {
        WindowContextView { states: self.states.insert(handle.spec_id(), state), ..self }
    }

    /// The content after the record of `handle` was dropped.
    pub open spec fn removed(self, handle: WindowHandle) -> WindowContextView {
        WindowContextView { states: self.states.remove(handle.spec_id()), ..self }
    }

    /// The state recorded for `handle`, if there is one.
    pub open spec fn lookup(self, handle: WindowHandle) -> Option<WindowState> {
        if self.states.contains_key(handle.spec_id()) {
            Some(self.states[handle.spec_id()])
        } else {
            None
        }
    }

    /// The handle that the next opening will issue.
    pub closed spec fn next_handle(self) -> WindowHandle {
        WindowHandle(self.next_id as u64)
    }

    /// The signals after `control` was asked of the current window:
    /// unchanged when no window is current.
    pub open spec fn controlled(self, control: WindowControl) -> Seq<RinchEvent> {
        match self.current {
            Some(window_id) => self.signalled(control.spec_event(window_id)),
            None => self.signals,
        }
    }
}

impl WindowContextView {
    /// The content after one step.
    pub open spec fn after(self, op: WindowOp) -> WindowContextView {
        match op {
            WindowOp::Open { props, html_content } => self.opened(
                self.next_handle(),
                props,
                html_content,
            ),
            WindowOp::Close { handle } => self.enqueued(
                WindowRequest::Close(CloseWindowRequest { handle }),
            ),
            WindowOp::TakeRequests => self.drained(),
            WindowOp::TakeSignals => WindowContextView { signals: Seq::empty(), ..self },
            WindowOp::UpdateState { handle, state } => self.updated(handle, state),
            WindowOp::RemoveState { handle } => self.removed(handle),
            WindowOp::SetCurrent { window_id } => WindowContextView { current: window_id, ..self },
            WindowOp::SetEventProxy { attached } => WindowContextView { attached, ..self },
            WindowOp::Control { control } => WindowContextView {
                signals: self.controlled(control),
                ..self
            },
        }
    }

    /// The content after the steps of `ops`, taken in order.
    pub open spec fn after_all(self, ops: Seq<WindowOp>) -> WindowContextView
        decreases ops.len(),
    {
        if ops.len() == 0 {
            self
        } else {
            self.after_all(ops.drop_last()).after(ops.last())
        }
    }
}

/// The state shared between application code and the event loop: the handle
/// counter, the request queue, the window-state table, the current window
/// and the signals waiting to be forwarded.
pub struct WindowContext {
    next_id: u64,
    requests: Vec<WindowRequest>,
    states: HashMap<u64, WindowState>,
    current_window_id: Option<WindowId>,
    proxy_attached: bool,
    signals: Vec<RinchEvent>,
}

impl View for WindowContext {
    type V = WindowContextView;

    closed spec fn view(&self) -> WindowContextView {
        WindowContextView {
            next_id: self.next_id as nat,
            requests: self.requests@,
            states: self.states@,
            current: self.current_window_id,
            attached: self.proxy_attached,
            signals: self.signals@,
        }
    }
}

impl WindowContext {
    /// A context with no request, no recorded window, no current window and
    /// no event loop attached. Its first handle carries the number 1.
    pub fn new() -> (ctx: WindowContext)
        ensures
            ctx@ == WindowContextView::initial(),
    {
        let ctx = WindowContext {
            next_id: 1,
            requests: Vec::new(),
            states: HashMap::new(),
            current_window_id: None,
            proxy_attached: false,
            signals: Vec::new(),
        };
        assert(ctx@.requests =~= Seq::empty());
        assert(ctx@.signals =~= Seq::empty());
        assert(ctx@.states =~= Map::empty());
        ctx
    }

    /// Whether the counter can still issue a handle.
    pub fn can_open(&self) -> (yes: bool)
        ensures
            yes == (self@.next_id < u64::MAX),
    {
        self.next_id < u64::MAX
    }

    /// Records `event` for the event loop if one is attached.
    fn signal(&mut self, event: RinchEvent)
        ensures
            final(self)@ == (WindowContextView {
                signals: old(self)@.signalled(event),
                ..old(self)@
            }),
    {
        if self.proxy_attached {
            self.signals.push(event);
        }
    }

    /// Queues `request` and signals the event loop.
    fn enqueue(&mut self, request: WindowRequest)
        ensures
            final(self)@ == old(self)@.enqueued(request),
    {
        self.requests.push(request);
        self.signal(RinchEvent::ProcessWindowRequests);
    }

    /// Asks `control` of the current window, if there is one.
    fn control_current(&mut self, control: WindowControl)
        ensures
            final(self)@ == (WindowContextView {
                signals: old(self)@.controlled(control),
                ..old(self)@
            }),
    {
        match self.current_window_id {
            Some(window_id) => {
                self.signal(control.event(window_id));
            },
            None => {},
        }
    }
}

/// Says whether an event loop is attached. While none is, signals are
/// dropped; requests stay in the queue all the same.
pub fn set_event_proxy(ctx: &mut WindowContext, attached: bool)
    ensures
        final(ctx)@ == (WindowContextView { attached, ..old(ctx)@ }),
{
    ctx.proxy_attached = attached;
}

/// Takes the signals recorded since the last call, oldest first.
pub fn take_signals(ctx: &mut WindowContext) -> (signals: Vec<RinchEvent>)
    ensures
        signals@ == old(ctx)@.signals,
        final(ctx)@ == (WindowContextView { signals: Seq::empty(), ..old(ctx)@ }),
{
    let mut signals: Vec<RinchEvent> = Vec::new();
    std::mem::swap(&mut ctx.signals, &mut signals);
    assert(ctx@.signals =~= Seq::empty());
    signals
}

/// Take all pending window requests, oldest first, leaving the queue empty.
pub fn take_window_requests(ctx: &mut WindowContext) -> (batch: Vec<WindowRequest>)
    ensures
        batch@ == old(ctx)@.requests,
        final(ctx)@ == old(ctx)@.drained(),
{
    let mut batch: Vec<WindowRequest> = Vec::new();
    std::mem::swap(&mut ctx.requests, &mut batch);
    assert(ctx@.requests =~= Seq::empty());
    batch
}

/// Update window state (called when a window is moved or resized).
pub fn update_window_state(ctx: &mut WindowContext, handle: WindowHandle, state: WindowState)
    ensures
        final(ctx)@ == old(ctx)@.updated(handle, state),
{
    ctx.states.insert(handle.id(), state);
}

/// Remove window state (called when a window is closed).
pub fn remove_window_state(ctx: &mut WindowContext, handle: WindowHandle)
    ensures
        final(ctx)@ == old(ctx)@.removed(handle),
{
    let id: u64 = handle.id();
    ctx.states.remove(&id);
}

/// Set the window whose event is about to be dispatched.
pub fn set_current_window_id(ctx: &mut WindowContext, window_id: Option<WindowId>)
    ensures
        final(ctx)@ == (WindowContextView { current: window_id, ..old(ctx)@ }),
{
    ctx.current_window_id = window_id;
}

/// Get the current window ID (if any).
pub fn get_current_window_id(ctx: &WindowContext) -> (window_id: Option<WindowId>)
    ensures
        window_id == ctx@.current,
{
    ctx.current_window_id
}

/// Get the current state of a window.
///
/// Returns `None` if the window handle is invalid or the window has been closed.
pub fn get_window_state(ctx: &WindowContext, handle: WindowHandle) -> (state: Option<WindowState>)
    ensures
        state == ctx@.lookup(handle),
{
    let id: u64 = handle.id();
    match ctx.states.get(&id) {
        Some(state) => Some(*state),
        None => None,
    }
}

/// Whether `all` lists exactly the windows recorded in `view`, each once,
/// with its recorded state. The order is left open.
pub open spec fn lists_states(
    all: Seq<(WindowHandle, WindowState)>,
    view: WindowContextView,
) -> bool {
    &&& all.len() == view.states.dom().len()
    &&& forall|i: int| 0 <= i < all.len() ==> view.lookup(#[trigger] all[i].0) == Some(all[i].1)
    &&& forall|i: int, j: int| 0 <= i < j < all.len() ==> all[i].0 != all[j].0
    &&& forall|handle: WindowHandle| #[trigger]
        view.states.contains_key(handle.spec_id()) ==> exists|i: int|
            0 <= i < all.len() && #[trigger] all[i].0 == handle
}

/// Get the states of all open windows.
///
/// Returns one (handle, state) pair for each window that has a recorded
/// state, in no particular order.
pub fn get_all_window_states(ctx: &WindowContext) -> (all: Vec<(WindowHandle, WindowState)>)
    ensures
        lists_states(all@, ctx@),
{
    let mut all: Vec<(WindowHandle, WindowState)> = Vec::new();
    let ghost entries = vstd::std_specs::hash::spec_hash_map_iter(&ctx.states).remaining();
    for entry in iter: ctx.states.iter()
        invariant
            iter.seq() == entries,
            all@.len() == iter.index(),
            forall|i: int|
                0 <= i < all@.len() ==> (#[trigger] all@[i]).0.spec_id() == *entries[i].0
                    && all@[i].1 == *entries[i].1,
    {
        let (id, state) = entry;
        all.push((WindowHandle(*id), *state));
    }
    proof {
        let states = ctx.states@;
        assert(all@.len() == entries.len());
        assert(entries.no_duplicates());
        assert forall|i: int| 0 <= i < all@.len() implies ctx@.lookup(#[trigger] all@[i].0)
            == Some(all@[i].1) by {
            assert(states.contains_key(*entries[i].0));
        }
        assert forall|i: int, j: int| 0 <= i < j < all@.len() implies all@[i].0 != all@[j].0 by {
            assert(states.contains_key(*entries[i].0));
            assert(states.contains_key(*entries[j].0));
            if all@[i].0 == all@[j].0 {
                assert(entries[i] == entries[j]);
            }
        }
        assert forall|handle: WindowHandle| #[trigger]
            states.contains_key(handle.spec_id()) implies exists|i: int|
            0 <= i < all@.len() && #[trigger] all@[i].0 == handle by {
            let k = handle.spec_id();
            assert(entries.contains((&k, &states[k])));
            let i = choose|i: int| 0 <= i < entries.len() && entries[i] == (&k, &states[k]);
            assert(all@[i].0 == handle);
        }
    }
    all
}

/// Open a new window with the given properties and HTML content.
///
/// Returns a `WindowHandle` that can be used to close the window later. The
/// window itself is created by the event loop when it takes the request.
pub fn open_window(ctx: &mut WindowContext, props: WindowProps, html_content: String) -> (handle:
    WindowHandle)
    requires
        old(ctx)@.next_id < u64::MAX,
    ensures
        handle == old(ctx)@.next_handle(),
        handle.spec_id() == old(ctx)@.next_id,
        final(ctx)@ == old(ctx)@.opened(handle, props, html_content),
{
    let handle = WindowHandle::new(&mut ctx.next_id);
    ctx.enqueue(WindowRequest::Open(OpenWindowRequest { handle, props, html_content }));
    handle
}

/// Close a window by its handle. A handle that names no open window is
/// queued like any other; the event loop ignores it.
pub fn close_window(ctx: &mut WindowContext, handle: WindowHandle)
    ensures
        final(ctx)@ == old(ctx)@.enqueued(WindowRequest::Close(CloseWindowRequest { handle })),
{
    ctx.enqueue(WindowRequest::Close(CloseWindowRequest { handle }));
}

/// Minimize the current window. Does nothing when no window is current.
pub fn minimize_current_window(ctx: &mut WindowContext)
    ensures
        final(ctx)@ == (WindowContextView {
            signals: old(ctx)@.controlled(WindowControl::Minimize),
            ..old(ctx)@
        }),
{
    ctx.control_current(WindowControl::Minimize);
}

/// Toggle maximize state of the current window. Does nothing when no window
/// is current.
pub fn toggle_maximize_current_window(ctx: &mut WindowContext)
    ensures
        final(ctx)@ == (WindowContextView {
            signals: old(ctx)@.controlled(WindowControl::ToggleMaximize),
            ..old(ctx)@
        }),
{
    ctx.control_current(WindowControl::ToggleMaximize);
}

/// Close the current window. Does nothing when no window is current.
pub fn close_current_window(ctx: &mut WindowContext)
    ensures
        final(ctx)@ == (WindowContextView {
            signals: old(ctx)@.controlled(WindowControl::Close),
            ..old(ctx)@
        }),
{
    ctx.control_current(WindowControl::Close);
}

/// Open a window using a builder pattern: start from the default
/// properties and an empty content, change what differs, then `open`.
pub struct WindowBuilder {
    props: WindowProps,
    html_content: String,
}

impl WindowBuilder {
    /// The properties gathered so far.
    pub closed spec fn spec_props(self) -> WindowProps {
        self.props
    }

    /// The content gathered so far.
    pub closed spec fn spec_content(self) -> String {
        self.html_content
    }

    /// Create a new window builder with default properties.
    pub fn new() -> (builder: WindowBuilder)
        ensures
            builder.spec_props().is_default(),
            builder.spec_content()@ == Seq::<char>::empty(),
    {
        WindowBuilder { props: WindowProps::default(), html_content: String::new() }
    }

    /// Set the window title.
    pub fn title(self, title: &str) -> (builder: WindowBuilder)
        ensures
            builder.spec_props().title@ == title@,
            builder.spec_props() == (WindowProps {
                title: builder.spec_props().title,
                ..self.spec_props()
            }),
            builder.spec_content() == self.spec_content(),
    {
        let mut builder = self;
        builder.props.title = title.to_owned();
        builder
    }

    /// Set the window size.
    pub fn size(self, width: u32, height: u32) -> (builder: WindowBuilder)
        ensures
            builder.spec_props() == (WindowProps { width, height, ..self.spec_props() }),
            builder.spec_content() == self.spec_content(),
    {
        let mut builder = self;
        builder.props.width = width;
        builder.props.height = height;
        builder
    }

    /// Set the window position.
    pub fn position(self, x: i32, y: i32) -> (builder: WindowBuilder)
        ensures
            builder.spec_props() == (WindowProps { x: Some(x), y: Some(y), ..self.spec_props() }),
            builder.spec_content() == self.spec_content(),
    {
        let mut builder = self;
        builder.props.x = Some(x);
        builder.props.y = Some(y);
        builder
    }

    /// Set whether the window is resizable.
    pub fn resizable(self, resizable: bool) -> (builder: WindowBuilder)
        ensures
            builder.spec_props() == (WindowProps { resizable, ..self.spec_props() }),
            builder.spec_content() == self.spec_content(),
    {
        let mut builder = self;
        builder.props.resizable = resizable;
        builder
    }

    /// Set whether the window is borderless (frameless).
    pub fn borderless(self, borderless: bool) -> (builder: WindowBuilder)
        ensures
            builder.spec_props() == (WindowProps { borderless, ..self.spec_props() }),
            builder.spec_content() == self.spec_content(),
    {
        let mut builder = self;
        builder.props.borderless = borderless;
        builder
    }

    /// Set whether the window is transparent.
    pub fn transparent(self, transparent: bool) -> (builder: WindowBuilder)
        ensures
            builder.spec_props() == (WindowProps { transparent, ..self.spec_props() }),
            builder.spec_content() == self.spec_content(),
    {
        let mut builder = self;
        builder.props.transparent = transparent;
        builder
    }

    /// Set whether the window is always on top.
    pub fn always_on_top(self, always_on_top: bool) -> (builder: WindowBuilder)
        ensures
            builder.spec_props() == (WindowProps { always_on_top, ..self.spec_props() }),
            builder.spec_content() == self.spec_content(),
    {
        let mut builder = self;
        builder.props.always_on_top = always_on_top;
        builder
    }

    /// Set the HTML content of the window.
    pub fn content(self, html: &str) -> (builder: WindowBuilder)
        ensures
            builder.spec_content()@ == html@,
            builder.spec_props() == self.spec_props(),
    {
        let mut builder = self;
        builder.html_content = html.to_owned();
        builder
    }

    /// Open the window and return a handle.
    pub fn open(self, ctx: &mut WindowContext) -> (handle: WindowHandle)
        requires
            old(ctx)@.next_id < u64::MAX,
        ensures
            handle == old(ctx)@.next_handle(),
            handle.spec_id() == old(ctx)@.next_id,
            final(ctx)@ == old(ctx)@.opened(handle, self.spec_props(), self.spec_content()),
    {
        open_window(ctx, self.props, self.html_content)
    }
}

impl Default for WindowBuilder {
    fn default() -> (builder: WindowBuilder)
        ensures
            builder.spec_props().is_default(),
            builder.spec_content()@ == Seq::<char>::empty(),
    {
        WindowBuilder::new()
    }
}

/// Only opening a window moves the counter, and it moves it up by one.
pub proof fn lemma_counter_only_grows(
    view: WindowContextView,
    request: WindowRequest,
    handle: WindowHandle,
    state: WindowState,
    props: WindowProps,
    html_content: String,
)
    ensures
        view.enqueued(request).next_id == view.next_id,
        view.drained().next_id == view.next_id,
        view.updated(handle, state).next_id == view.next_id,
        view.removed(handle).next_id == view.next_id,
        view.opened(handle, props, html_content).next_id == view.next_id + 1,
{
}

/// Requests leave the queue in the order in which they entered it: after
/// two requests were queued, the queue holds what it held, then the first,
/// then the second; and a drained queue is empty.
pub proof fn lemma_queue_is_fifo(
    view: WindowContextView,
    first: WindowRequest,
    second: WindowRequest,
)
    ensures
        view.enqueued(first).enqueued(second).requests == view.requests.push(first).push(second),
        view.enqueued(first).enqueued(second).requests.len() == view.requests.len() + 2,
        view.drained().requests.len() == 0,
        view.drained().enqueued(first).requests == seq![first],
{
    assert(view.drained().enqueued(first).requests =~= seq![first]);
}

/// A window has no recorded state until one is recorded; the state found
/// is the one recorded last; dropping the record makes it absent again;
/// and none of this touches the record of another window.
pub proof fn lemma_state_table(
    view: WindowContextView,
    handle: WindowHandle,
    other: WindowHandle,
    state: WindowState,
    newer: WindowState,
)
    ensures
        WindowContextView::initial().lookup(handle) == None::<WindowState>,
        view.updated(handle, state).lookup(handle) == Some(state),
        view.updated(handle, state).updated(handle, newer).lookup(handle) == Some(newer),
        view.removed(handle).lookup(handle) == None::<WindowState>,
        view.updated(handle, state).removed(handle).lookup(handle) == None::<WindowState>,
        other != handle ==> view.updated(handle, state).lookup(other) == view.lookup(other),
        other != handle ==> view.removed(handle).lookup(other) == view.lookup(other),
{
}

/// Queueing and draining requests leave the state table as it was.
pub proof fn lemma_requests_keep_states(
    view: WindowContextView,
    request: WindowRequest,
    handle: WindowHandle,
)
    ensures
        view.enqueued(request).lookup(handle) == view.lookup(handle),
        view.drained().lookup(handle) == view.lookup(handle),
{
}

/// A fresh context has no current window, and while none is set a control
/// raises no signal, whatever the control and whether or not an event loop
/// is attached. With a current window and an event loop attached, the
/// control's event for that window is the signal raised.
pub proof fn lemma_controls_need_current_window(view: WindowContextView, control: WindowControl)
    ensures
        WindowContextView::initial().current == None::<WindowId>,
        view.current is None ==> view.controlled(control) == view.signals,
        view.current is Some && view.attached ==> view.controlled(control) == view.signals.push(
            control.spec_event(view.current->0),
        ),
        !view.attached ==> view.controlled(control) == view.signals,
{
}

/// While the counter fits the handle's number, the next handle carries the
/// counter's value.
pub proof fn lemma_next_handle_carries_counter(view: WindowContextView)
    requires
        view.next_id <= u64::MAX,
    ensures
        view.next_handle().spec_id() == view.next_id,
{
}

/// No sequence of steps moves the counter back.
pub proof fn lemma_counter_never_falls(view: WindowContextView, ops: Seq<WindowOp>)
    ensures
        view.after_all(ops).next_id >= view.next_id,
    decreases ops.len(),
{
    if ops.len() > 0 {
        lemma_counter_never_falls(view, ops.drop_last());
    }
}

/// Whatever happens between two openings, the second issues a greater
/// handle than the first, as long as the counter has not run out.
pub proof fn lemma_later_handle_is_greater(
    view: WindowContextView,
    props: WindowProps,
    html_content: String,
    between: Seq<WindowOp>,
)
    requires
        view.after(WindowOp::Open { props, html_content }).after_all(between).next_id <= u64::MAX,
    ensures
        view.next_handle().spec_id() < view.after(
            WindowOp::Open { props, html_content },
        ).after_all(between).next_handle().spec_id(),
        view.next_handle() != view.after(WindowOp::Open { props, html_content }).after_all(
            between,
        ).next_handle(),
{
    lemma_counter_never_falls(view.after(WindowOp::Open { props, html_content }), between);
}

/// A handle for which no state was ever recorded has none, whatever else
/// was done to the context since it was made.
pub proof fn lemma_unrecorded_state_is_absent(ops: Seq<WindowOp>, handle: WindowHandle)
    requires
        forall|i: int| 0 <= i < ops.len() ==> !(#[trigger] ops[i]).records(handle),
    ensures
        WindowContextView::initial().after_all(ops).lookup(handle) == None::<WindowState>,
    decreases ops.len(),
{
    if ops.len() > 0 {
        let before = ops.drop_last();
        assert forall|i: int| 0 <= i < before.len() implies !(#[trigger] before[i]).records(
            handle,
        ) by {
            assert(before[i] == ops[i]);
        }
        lemma_unrecorded_state_is_absent(before, handle);
        assert(!ops[ops.len() - 1].records(handle));
    }
}

/// The state recorded for a handle is found for as long as no step records
/// another or drops it, whatever else is done to the context.
pub proof fn lemma_recorded_state_is_kept(
    view: WindowContextView,
    handle: WindowHandle,
    state: WindowState,
    ops: Seq<WindowOp>,
)
    requires
        forall|i: int|
            0 <= i < ops.len() ==> !(#[trigger] ops[i]).records(handle) && !ops[i].forgets(handle),
    ensures
        view.updated(handle, state).after_all(ops).lookup(handle) == Some(state),
    decreases ops.len(),
{
    if ops.len() > 0 {
        let before = ops.drop_last();
        assert forall|i: int| 0 <= i < before.len() implies !(#[trigger] before[i]).records(
            handle,
        ) && !before[i].forgets(handle) by {
            assert(before[i] == ops[i]);
        }
        lemma_recorded_state_is_kept(view, handle, state, before);
        let last = ops[ops.len() - 1];
        assert(!last.records(handle) && !last.forgets(handle));
    }
}

/// Once the record of a handle is dropped it stays absent until a step
/// records a state for it again.
pub proof fn lemma_removed_state_stays_absent(
    view: WindowContextView,
    handle: WindowHandle,
    ops: Seq<WindowOp>,
)
    requires
        forall|i: int| 0 <= i < ops.len() ==> !(#[trigger] ops[i]).records(handle),
    ensures
        view.removed(handle).after_all(ops).lookup(handle) == None::<WindowState>,
    decreases ops.len(),
{
    if ops.len() > 0 {
        let before = ops.drop_last();
        assert forall|i: int| 0 <= i < before.len() implies !(#[trigger] before[i]).records(
            handle,
        ) by {
            assert(before[i] == ops[i]);
        }
        lemma_removed_state_stays_absent(view, handle, before);
        assert(!ops[ops.len() - 1].records(handle));
    }
}

/// The current window is the one set last: steps that set none leave it
/// as it was, so a fresh context has none until one is set.
pub proof fn lemma_current_window_is_last_set(view: WindowContextView, ops: Seq<WindowOp>)
    requires
        forall|i: int| 0 <= i < ops.len() ==> !(#[trigger] ops[i] is SetCurrent),
    ensures
        view.after_all(ops).current == view.current,
        WindowContextView::initial().after_all(ops).current == None::<WindowId>,
    decreases ops.len(),
{
    if ops.len() > 0 {
        let before = ops.drop_last();
        assert forall|i: int| 0 <= i < before.len() implies !(#[trigger] before[i] is SetCurrent) by {
            assert(before[i] == ops[i]);
        }
        lemma_current_window_is_last_set(view, before);
        lemma_current_window_is_last_set(WindowContextView::initial(), before);
        assert(!(ops[ops.len() - 1] is SetCurrent));
    }
}

} // verus!
