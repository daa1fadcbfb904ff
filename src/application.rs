use vstd::prelude::*;
use std::time::Duration;
use crate::event::Event;
use crate::gpu::Device;
use crate::layer::Layer;
use crate::renderer::Renderer;

verus! {

/// A call of one layer's hook: the size the hook was shown, what it
/// returned, and whether it asked the application to stop.
pub enum HookCall {
    Create { layer: int, closes: bool },
    Event { layer: int, event: Event, size: (u32, u32), handled: bool, closes: bool },
    Update { layer: int, elapsed: Duration, size: (u32, u32), closes: bool },
    Destroy { layer: int },
}

/// The hook asked the application to stop.
pub open spec fn call_closes(c: HookCall) -> bool {
    match c {
        HookCall::Create { closes, .. } => closes,
        HookCall::Event { closes, .. } => closes,
        HookCall::Update { closes, .. } => closes,
        HookCall::Destroy { .. } => false,
    }
}

/// No hook call of `s` asked the application to stop.
pub open spec fn none_closed(s: Seq<HookCall>) -> bool {
    forall|j: int| 0 <= j < s.len() ==> !call_closes(#[trigger] s[j])
}

pub proof fn lemma_none_closed_append(a: Seq<HookCall>, b: Seq<HookCall>)
    ensures
        none_closed(a + b) <==> none_closed(a) && none_closed(b),
{
    if none_closed(a + b) {
        assert forall|j: int| 0 <= j < b.len() implies !call_closes(#[trigger] b[j]) by {
            assert((a + b)[a.len() + j] == b[j]);
        }
        assert forall|j: int| 0 <= j < a.len() implies !call_closes(#[trigger] a[j]) by {
            assert((a + b)[j] == a[j]);
        }
    }
}

/// What the hooks see: the renderer, the cached window state, and a way to
/// ask the application to stop.
pub struct AppContext<D: Device> {
    renderer: Renderer<D>,
    size: (u32, u32),
    cursor_pos: (u64, u64),
    close_requested: bool,
}

impl<D: Device> AppContext<D> {
    pub closed spec fn spec_size(&self) -> (u32, u32) {
        self.size
    }

    pub closed spec fn spec_cursor_pos(&self) -> (u64, u64) {
        self.cursor_pos
    }

    pub closed spec fn spec_close_requested(&self) -> bool {
        self.close_requested
    }

    pub closed spec fn spec_renderer(&self) -> Renderer<D> {
        self.renderer
    }

    pub fn renderer(&mut self) -> (r: &mut Renderer<D>)
        ensures
            *r == old(self).spec_renderer(),
            final(self).spec_renderer() == *final(r),
            final(self).spec_size() == old(self).spec_size(),
            final(self).spec_cursor_pos() == old(self).spec_cursor_pos(),
            final(self).spec_close_requested() == old(self).spec_close_requested(),
    {
        &mut self.renderer
    }

    /// The viewport size from the latest resize, or the initial size.
    pub fn get_size(&self) -> (r: (u32, u32))
        ensures
            r == self.spec_size(),
    {
        self.size
    }

    /// The latest cursor position, as the bit patterns of two 64-bit floats.
    pub fn get_cursor_pos(&self) -> (r: (u64, u64))
        ensures
            r == self.spec_cursor_pos(),
    {
        self.cursor_pos
    }

    /// Asks the application to stop after the current frame.
    pub fn close(&mut self)
        ensures
            final(self).spec_close_requested(),
            final(self).spec_renderer() == old(self).spec_renderer(),
            final(self).spec_size() == old(self).spec_size(),
            final(self).spec_cursor_pos() == old(self).spec_cursor_pos(),
    {
        self.close_requested = true;
    }
}

/// Cached window state after one event: a resize sets the size, a cursor
/// move sets the cursor position, anything else leaves both.
pub open spec fn size_after(size: (u32, u32), e: Event) -> (u32, u32) {
    match e {
        Event::Resize(w, h) => (w, h),
        _ => size,
    }
}

pub open spec fn cursor_after(pos: (u64, u64), e: Event) -> (u64, u64) {
    match e {
        Event::CursorMove(x, y) => (x, y),
        _ => pos,
    }
}

/// The cached size after a sequence of events: that of the last resize.
pub open spec fn size_after_all(size: (u32, u32), events: Seq<Event>) -> (u32, u32)
    decreases events.len(),
{
    if events.len() == 0 {
        size
    } else {
        size_after(size_after_all(size, events.drop_last()), events.last())
    }
}

pub open spec fn cursor_after_all(pos: (u64, u64), events: Seq<Event>) -> (u64, u64)
    decreases events.len(),
{
    if events.len() == 0 {
        pos
    } else {
        cursor_after(cursor_after_all(pos, events.drop_last()), events.last())
    }
}

pub open spec fn has_close(events: Seq<Event>) -> bool {
    exists|i: int| 0 <= i < events.len() && #[trigger] events[i] == Event::Close
}

/// `s` records one event going down a stack of `n` layers: layer 0 first,
/// then each next one, stopping at the first that handled it; each layer was
/// shown `size`.
pub open spec fn is_dispatch(s: Seq<HookCall>, e: Event, n: int, size: (u32, u32)) -> bool {
    &&& s.len() <= n
    &&& (n > 0 ==> s.len() > 0)
    &&& forall|j: int| 0 <= j < s.len() ==> match #[trigger] s[j] {
        HookCall::Event { layer, event, size: shown, handled, .. } => layer == j && event == e && shown
            == size && (handled ==> j == s.len() - 1),
        _ => false,
    }
    &&& (s.len() < n ==> s.last() matches HookCall::Event { handled: true, .. })
}

/// Entry `j` of a dispatch log is a layer that handled the event.
pub open spec fn handled_at(s: Seq<HookCall>, j: int) -> bool {
    s[j] matches HookCall::Event { handled: true, .. }
}

/// `s` splits at `cuts` into one dispatch per event of `events`, in order,
/// each layer shown the size cached after that event, starting from `size`.
pub open spec fn dispatches_at(
    s: Seq<HookCall>,
    events: Seq<Event>,
    n: int,
    size: (u32, u32),
    cuts: Seq<int>,
) -> bool {
    &&& cuts.len() == events.len() + 1
    &&& cuts[0] == 0
    &&& cuts.last() == s.len()
    &&& forall|j: int| 0 <= j < cuts.len() ==> 0 <= #[trigger] cuts[j] <= s.len()
    &&& forall|j: int| 0 <= j < events.len() ==> cuts[j] <= #[trigger] cuts[j + 1]
    &&& forall|j: int|
        0 <= j < events.len() ==> is_dispatch(
            #[trigger] s.subrange(cuts[j], cuts[j + 1]),
            events[j],
            n,
            size_after_all(size, events.take(j + 1)),
        )
}

/// `s` records each event of `events` going down the stack, in order.
pub open spec fn dispatches(s: Seq<HookCall>, events: Seq<Event>, n: int, size: (u32, u32)) -> bool {
    exists|cuts: Seq<int>| #[trigger] dispatches_at(s, events, n, size, cuts)
}

/// `s` records `on_update` on layers 0 to `n - 1`, in order, each shown `size`.
pub open spec fn is_update(s: Seq<HookCall>, n: int, elapsed: Duration, size: (u32, u32)) -> bool {
    &&& s.len() == n
    &&& forall|j: int| 0 <= j < s.len() ==> match #[trigger] s[j] {
        HookCall::Update { layer, elapsed: el, size: shown, .. } => layer == j && el == elapsed && shown == size,
        _ => false,
    }
}

/// The `on_destroy` calls on layers 0 to `n - 1`, in order.
pub open spec fn destroy_calls(n: int) -> Seq<HookCall> {
    Seq::new(n as nat, |j: int| HookCall::Destroy { layer: j })
}

/// Once a layer has handled an event, no later layer sees it, and the first
/// layer always sees it first.
pub proof fn lemma_dispatch_stops_at_handler(s: Seq<HookCall>, e: Event, n: int, size: (u32, u32), k: int)
    requires
        is_dispatch(s, e, n, size),
        0 <= k < s.len(),
        handled_at(s, k),
    ensures
        s.len() == k + 1,
        forall|j: int| 0 <= j < k ==> !handled_at(s, j),
        s[0] matches HookCall::Event { layer, event, .. } && layer == 0 && event == e,
{
    assert(s[k] matches HookCall::Event { .. });
    assert forall|j: int| 0 <= j < k implies !handled_at(s, j) by {
        assert(s[j] matches HookCall::Event { .. });
    }
    assert(s[0] matches HookCall::Event { .. });
}

/// After a resize to `(w, h)` followed by events that are no resize, the
/// cached size is `(w, h)`, whatever the size was at construction.
pub proof fn lemma_last_resize_wins(size: (u32, u32), before: Seq<Event>, w: u32, h: u32, after: Seq<Event>)
    requires
        forall|i: int| 0 <= i < after.len() ==> !(#[trigger] after[i] matches Event::Resize(_, _)),
    ensures
        size_after_all(size, before.push(Event::Resize(w, h)) + after) == (w, h),
    decreases after.len(),
{
    let all = before.push(Event::Resize(w, h)) + after;
    if after.len() == 0 {
        assert(all =~= before.push(Event::Resize(w, h)));
        assert(all.drop_last() =~= before);
    } else {
        assert(all.drop_last() =~= before.push(Event::Resize(w, h)) + after.drop_last());
        assert(all.last() == after.last());
        assert(!(after[after.len() - 1] matches Event::Resize(_, _)));
        lemma_last_resize_wins(size, before, w, h, after.drop_last());
    }
}

/// The application: a renderer and window state shared with an ordered stack
/// of layers, driven one frame at a time.
pub struct Application<D: Device, L: Layer<D>> {
    layers: Vec<L>,
    ctx: AppContext<D>,
    size: (u32, u32),
    cursor_pos: (u64, u64),
    running: bool,
    shut_down: bool,
    calls: Ghost<Seq<HookCall>>,
}

impl<D: Device, L: Layer<D>> Application<D, L> {
    pub closed spec fn layer_count(&self) -> int {
        self.spec_layers().len() as int
    }

    pub closed spec fn spec_size(&self) -> (u32, u32) {
        self.size
    }

    pub closed spec fn spec_cursor_pos(&self) -> (u64, u64) {
        self.cursor_pos
    }

    pub closed spec fn spec_running(&self) -> bool {
        self.running
    }

    pub closed spec fn spec_shut_down(&self) -> bool {
        self.shut_down
    }

    /// Every hook call made so far, in order.
    pub closed spec fn calls(&self) -> Seq<HookCall> {
        self.calls@
    }

    /// An application over `device` whose window has size `size`; running,
    /// with no layers.
    pub fn new(device: D, size: (u32, u32)) -> (r: Self)
        ensures
            r.layer_count() == 0,
            r.spec_size() == size,
            r.spec_cursor_pos() == (0u64, 0u64),
            r.spec_running(),
            !r.spec_shut_down(),
            r.calls() == Seq::<HookCall>::empty(),
    {
        let ctx = AppContext { renderer: Renderer::new(device), size, cursor_pos: (0, 0), close_requested: false };
        Application {
            layers: Vec::new(),
            ctx,
            size,
            cursor_pos: (0, 0),
            running: true,
            shut_down: false,
            calls: Ghost(Seq::empty()),
        }
    }

    /// Shows the hooks the current cached state, with no close request.
    fn sync_context(&mut self)
        ensures
            final(self).ctx.size == old(self).size,
            final(self).ctx.cursor_pos == old(self).cursor_pos,
            !final(self).ctx.close_requested,
            final(self).layers == old(self).layers,
            final(self).size == old(self).size,
            final(self).cursor_pos == old(self).cursor_pos,
            final(self).running == old(self).running,
            final(self).shut_down == old(self).shut_down,
            final(self).calls == old(self).calls,
    {
        self.ctx.size = self.size;
        self.ctx.cursor_pos = self.cursor_pos;
        self.ctx.close_requested = false;
    }

    /// Pushes `layer` on top of the stack and runs its `on_create`; the
    /// layers below are kept as they were.
    pub fn add_layer(&mut self, layer: L)
        requires
            old(self).layer_count() < usize::MAX,
            !old(self).spec_shut_down(),
        ensures
            final(self).layer_count() == old(self).layer_count() + 1,
            final(self).spec_layers().take(old(self).layer_count()) == old(self).spec_layers(),
            final(self).calls().len() == old(self).calls().len() + 1,
            final(self).calls().take(old(self).calls().len() as int) == old(self).calls(),
            final(self).calls().last() matches HookCall::Create { layer, closes } && layer
                == old(self).layer_count() && final(self).spec_running() == (old(self).spec_running()
                && !closes),
            final(self).spec_size() == old(self).spec_size(),
            final(self).spec_cursor_pos() == old(self).spec_cursor_pos(),
            final(self).spec_shut_down() == old(self).spec_shut_down(),
    {
        self.layers.push(layer);
        let i = self.layers.len() - 1;
        self.sync_context();
        self.layers[i].on_create(&mut self.ctx);
        let closes = self.ctx.close_requested;
        self.calls = Ghost(self.calls@.push(HookCall::Create { layer: i as int, closes }));
        if closes {
            self.running = false;
        }
        proof {
            assert(self.layers@.take(old(self).layer_count()) =~= old(self).spec_layers());
            assert(self.calls@.take(old(self).calls().len() as int) =~= old(self).calls());
        }
    }

    /// Updates the cached state from `e` (a resize sets the size, a cursor
    /// move the cursor position, a close stops the application), then hands
    /// `e` to the layers from the bottom of the stack up until one handles
    /// it, each shown the updated size. Returns the position of that layer.
    /// The application keeps running unless `e` is a close or a hook asked
    /// to stop.
    pub fn dispatch_event(&mut self, e: Event) -> (r: Option<usize>)
        requires
            !old(self).spec_shut_down(),
        ensures
            final(self).layer_count() == old(self).layer_count(),
            final(self).spec_size() == size_after(old(self).spec_size(), e),
            final(self).spec_cursor_pos() == cursor_after(old(self).spec_cursor_pos(), e),
            final(self).spec_shut_down() == old(self).spec_shut_down(),
            final(self).calls().len() >= old(self).calls().len(),
            final(self).calls().take(old(self).calls().len() as int) == old(self).calls(),
            is_dispatch(
                final(self).calls().skip(old(self).calls().len() as int),
                e,
                old(self).layer_count(),
                final(self).spec_size(),
            ),
            final(self).spec_running() == (old(self).spec_running() && e != Event::Close && none_closed(
                final(self).calls().skip(old(self).calls().len() as int),
            )),
            match r {
                Some(k) => k == final(self).calls().len() - old(self).calls().len() - 1
                    && handled_at(final(self).calls().skip(old(self).calls().len() as int), k as int),
                None => forall|j: int| 0 <= j < final(self).calls().len() - old(self).calls().len()
                    ==> !handled_at(final(self).calls().skip(old(self).calls().len() as int), j),
            },
    {
        match e {
            Event::Resize(w, h) => {
                self.size = (w, h);
            },
            Event::Close => {
                self.running = false;
            },
            Event::CursorMove(x, y) => {
                self.cursor_pos = (x, y);
            },
            _ => {},
        }
        let ghost start = self.calls@;
        let ghost running0 = self.running;
        let n = self.layers.len();
        let mut i: usize = 0;
        let mut handled_by: Option<usize> = None;
        while i < n && handled_by.is_none()
            invariant
                n == self.layers@.len(),
                n == old(self).layer_count(),
                0 <= i <= n,
                self.size == size_after(old(self).spec_size(), e),
                self.cursor_pos == cursor_after(old(self).spec_cursor_pos(), e),
                running0 == (old(self).spec_running() && e != Event::Close),
                self.running == (running0 && none_closed(self.calls@.skip(start.len() as int))),
                self.shut_down == old(self).spec_shut_down(),
                start == old(self).calls(),
                self.calls@.len() == start.len() + i,
                self.calls@.take(start.len() as int) == start,
                forall|j: int| 0 <= j < i ==> match #[trigger] self.calls@[start.len() + j] {
                    HookCall::Event { layer, event, size, handled, .. } => layer == j && event == e
                        && size == self.size && (handled <==> handled_by == Some((i - 1) as usize) && j
                        == i - 1),
                    _ => false,
                },
                handled_by is Some ==> handled_by == Some((i - 1) as usize) && i > 0,
            decreases n - i,
        {
            self.sync_context();
            let ghost shown = self.ctx.size;
            let handled = self.layers[i].on_event(e, &mut self.ctx);
            let closes = self.ctx.close_requested;
            let ghost before = self.calls@;
            self.calls = Ghost(
                self.calls@.push(HookCall::Event { layer: i as int, event: e, size: shown, handled, closes }),
            );
            proof {
                assert(self.calls@.skip(start.len() as int) =~= before.skip(start.len() as int) + seq![
                    HookCall::Event { layer: i as int, event: e, size: shown, handled, closes },
                ]);
                lemma_none_closed_append(before.skip(start.len() as int), seq![
                    HookCall::Event { layer: i as int, event: e, size: shown, handled, closes },
                ]);
                assert(seq![HookCall::Event { layer: i as int, event: e, size: shown, handled, closes }][0] == HookCall::Event { layer: i as int, event: e, size: shown, handled, closes });
                assert(none_closed(seq![HookCall::Event { layer: i as int, event: e, size: shown, handled, closes }]) <==> !closes);
                assert(self.calls@.take(start.len() as int) =~= before.take(start.len() as int));
            }
            if closes {
                self.running = false;
            }
            if handled {
                handled_by = Some(i);
            }
            i = i + 1;
        }
        proof {
            let s = self.calls@.skip(start.len() as int);
            assert(s.len() == i);
            assert forall|j: int| 0 <= j < s.len() implies #[trigger] s[j] == self.calls@[start.len() + j] by {}
            if i < n {
                assert(handled_by is Some);
                assert(s.last() == self.calls@[start.len() + i - 1]);
            }
            if handled_by is None {
                assert forall|j: int| 0 <= j < s.len() implies !handled_at(s, j) by {
                    assert(s[j] == self.calls@[start.len() + j]);
                }
            } else {
                assert(s[i - 1] == self.calls@[start.len() + i - 1]);
            }
        }
        handled_by
    }

    /// Runs `on_update` on every layer, bottom of the stack first, each shown
    /// the cached size. The application keeps running unless a hook asked to
    /// stop.
    pub fn update_layers(&mut self, elapsed: Duration)
        requires
            !old(self).spec_shut_down(),
        ensures
            final(self).layer_count() == old(self).layer_count(),
            final(self).spec_size() == old(self).spec_size(),
            final(self).spec_cursor_pos() == old(self).spec_cursor_pos(),
            final(self).spec_shut_down() == old(self).spec_shut_down(),
            final(self).calls().len() == old(self).calls().len() + old(self).layer_count(),
            final(self).calls().take(old(self).calls().len() as int) == old(self).calls(),
            is_update(
                final(self).calls().skip(old(self).calls().len() as int),
                old(self).layer_count(),
                elapsed,
                old(self).spec_size(),
            ),
            final(self).spec_running() == (old(self).spec_running() && none_closed(
                final(self).calls().skip(old(self).calls().len() as int),
            )),
    {
        let ghost start = self.calls@;
        let n = self.layers.len();
        let mut i: usize = 0;
        while i < n
            invariant
                n == self.layers@.len(),
                n == old(self).layer_count(),
                0 <= i <= n,
                self.size == old(self).spec_size(),
                self.cursor_pos == old(self).spec_cursor_pos(),
                self.shut_down == old(self).spec_shut_down(),
                start == old(self).calls(),
                self.calls@.len() == start.len() + i,
                self.calls@.take(start.len() as int) == start,
                forall|j: int| 0 <= j < i ==> match #[trigger] self.calls@[start.len() + j] {
                    HookCall::Update { layer, elapsed: el, size, .. } => layer == j && el == elapsed && size
                        == self.size,
                    _ => false,
                },
                self.running == (old(self).spec_running() && none_closed(self.calls@.skip(start.len() as int))),
            decreases n - i,
        {
            self.sync_context();
            let ghost shown = self.ctx.size;
            self.layers[i].on_update(elapsed, &mut self.ctx);
            let closes = self.ctx.close_requested;
            let ghost before = self.calls@;
            self.calls = Ghost(self.calls@.push(HookCall::Update { layer: i as int, elapsed, size: shown, closes }));
            proof {
                assert(self.calls@.skip(start.len() as int) =~= before.skip(start.len() as int) + seq![
                    HookCall::Update { layer: i as int, elapsed, size: shown, closes },
                ]);
                lemma_none_closed_append(before.skip(start.len() as int), seq![
                    HookCall::Update { layer: i as int, elapsed, size: shown, closes },
                ]);
                assert(seq![HookCall::Update { layer: i as int, elapsed, size: shown, closes }][0] == HookCall::Update { layer: i as int, elapsed, size: shown, closes });
                assert(none_closed(seq![HookCall::Update { layer: i as int, elapsed, size: shown, closes }]) <==> !closes);
                assert(self.calls@.take(start.len() as int) =~= before.take(start.len() as int));
            }
            if closes {
                self.running = false;
            }
            i = i + 1;
        }
        proof {
            let s = self.calls@.skip(start.len() as int);
            assert forall|j: int| 0 <= j < s.len() implies #[trigger] s[j] == self.calls@[start.len() + j] by {}
        }
    }

    /// One frame: every event of `events` in order, as `dispatch_event`
    /// does, then `on_update` on every layer with `elapsed`, each shown the
    /// size of the last resize among `events`. The application keeps running
    /// unless `events` holds a close or a hook asked to stop.
    pub fn frame(&mut self, events: &[Event], elapsed: Duration)
        requires
            !old(self).spec_shut_down(),
        ensures
            final(self).layer_count() == old(self).layer_count(),
            final(self).spec_size() == size_after_all(old(self).spec_size(), events@),
            final(self).spec_cursor_pos() == cursor_after_all(old(self).spec_cursor_pos(), events@),
            final(self).spec_shut_down() == old(self).spec_shut_down(),
            final(self).calls().len() >= old(self).calls().len() + old(self).layer_count(),
            final(self).calls().take(old(self).calls().len() as int) == old(self).calls(),
            dispatches(
                final(self).calls().subrange(
                    old(self).calls().len() as int,
                    final(self).calls().len() - old(self).layer_count(),
                ),
                events@,
                old(self).layer_count(),
                old(self).spec_size(),
            ),
            is_update(
                final(self).calls().skip(final(self).calls().len() - old(self).layer_count()),
                old(self).layer_count(),
                elapsed,
                size_after_all(old(self).spec_size(), events@),
            ),
            final(self).spec_running() == (old(self).spec_running() && !has_close(events@) && none_closed(
                final(self).calls().skip(old(self).calls().len() as int),
            )),
    {
        let ghost k0 = old(self).calls().len() as int;
        let ghost n = old(self).layer_count();
        let ghost size0 = old(self).spec_size();
        let mut i: usize = 0;
        let ghost mut cuts: Seq<int> = seq![0int];
        proof {
            assert(self.calls().subrange(k0, k0) =~= Seq::<HookCall>::empty());
            assert(events@.take(0) =~= Seq::<Event>::empty());
            assert(self.calls().skip(k0) =~= Seq::<HookCall>::empty());
        }
        while i < events.len()
            invariant
                0 <= i <= events@.len(),
                !self.spec_shut_down(),
                k0 == old(self).calls().len(),
                n == old(self).layer_count(),
                size0 == old(self).spec_size(),
                self.layer_count() == n,
                self.spec_size() == size_after_all(size0, events@.take(i as int)),
                self.spec_cursor_pos() == cursor_after_all(old(self).spec_cursor_pos(), events@.take(i as int)),
                self.spec_running() == (old(self).spec_running() && !has_close(events@.take(i as int))
                    && none_closed(self.calls().skip(k0))),
                self.spec_shut_down() == old(self).spec_shut_down(),
                self.calls().len() >= k0,
                self.calls().take(k0) == old(self).calls(),
                dispatches_at(self.calls().subrange(k0, self.calls().len() as int), events@.take(i as int), n, size0, cuts),
            decreases events@.len() - i,
        {
            let ghost before = self.calls();
            let e = events[i];
            self.dispatch_event(e);
            proof {
                let t = events@.take(i as int);
                let t1 = events@.take(i as int + 1);
                let after = self.calls();
                let l = before.len() as int;
                assert(t1.drop_last() =~= t);
                assert(t1.last() == e);
                assert(after.take(k0) =~= before.take(k0));
                let s0 = before.subrange(k0, l);
                let s1 = after.subrange(k0, after.len() as int);
                let c1 = cuts.push(after.len() - k0);
                assert(size_after_all(size0, t1) == size_after(size_after_all(size0, t1.drop_last()), t1.last()));
                assert forall|j: int| 0 <= j < c1.len() implies 0 <= #[trigger] c1[j] <= s1.len() by {
                    if j < cuts.len() {
                        assert(0 <= cuts[j] <= s0.len());
                    }
                }
                assert forall|j: int| 0 <= j < t1.len() implies cuts.push(after.len() - k0)[j] <= #[trigger] c1[j + 1] by {
                    if j < i {
                        assert(cuts[j] <= cuts[j + 1]);
                    }
                }
                assert forall|j: int| 0 <= j < t1.len() implies is_dispatch(
                    #[trigger] s1.subrange(c1[j], c1[j + 1]),
                    t1[j],
                    n,
                    size_after_all(size0, t1.take(j + 1)),
                ) by {
                    if j < i {
                        assert(cuts[j] <= cuts[j + 1]);
                        assert(0 <= cuts[j] <= s0.len());
                        assert(0 <= cuts[j + 1] <= s0.len());
                        assert(s1.subrange(c1[j], c1[j + 1]) =~= s0.subrange(cuts[j], cuts[j + 1]));
                        assert(t1.take(j + 1) =~= t.take(j + 1));
                        assert(t1[j] == t[j]);
                    } else {
                        assert(s1.subrange(c1[j], c1[j + 1]) =~= after.skip(l));
                        assert(t1.take(j + 1) =~= t1);
                    }
                }
                assert(dispatches_at(s1, t1, n, size0, c1));
                cuts = c1;
                assert(after.skip(k0) =~= before.skip(k0) + after.skip(l));
                lemma_none_closed_append(before.skip(k0), after.skip(l));
                if has_close(t1) {
                    let k = choose|k: int| 0 <= k < t1.len() && #[trigger] t1[k] == Event::Close;
                    if k < i {
                        assert(t[k] == Event::Close);
                    }
                }
                if has_close(t) {
                    let k = choose|k: int| 0 <= k < t.len() && #[trigger] t[k] == Event::Close;
                    assert(t1[k] == Event::Close);
                }
                if e == Event::Close {
                    assert(t1[i as int] == Event::Close);
                }
            }
            i = i + 1;
        }
        proof {
            assert(events@.take(i as int) =~= events@);
        }
        let ghost before = self.calls();
        self.update_layers(elapsed);
        proof {
            assert(self.calls().subrange(k0, self.calls().len() - n) =~= before.subrange(k0, before.len() as int));
            assert(dispatches_at(before.subrange(k0, before.len() as int), events@, n, size0, cuts));
        }
        proof {
            let after = self.calls();
            let l = before.len() as int;
            assert(after.take(k0) =~= before.take(k0));
            assert(after.subrange(k0, after.len() - n) =~= before.subrange(k0, l));
            assert(after.skip(k0) =~= before.skip(k0) + after.skip(l));
            lemma_none_closed_append(before.skip(k0), after.skip(l));
        }
    }

    /// Runs `on_destroy` on every layer, bottom of the stack first, the first
    /// time it is called; later calls do nothing. No hook runs after it.
    pub fn shutdown(&mut self)
        ensures
            final(self).spec_shut_down(),
            !final(self).spec_running(),
            final(self).layer_count() == old(self).layer_count(),
            final(self).spec_size() == old(self).spec_size(),
            final(self).calls() == if old(self).spec_shut_down() {
                old(self).calls()
            } else {
                old(self).calls() + destroy_calls(old(self).layer_count())
            },
    {
        if self.shut_down {
            self.running = false;
            return;
        }
        let n = self.layers.len();
        let mut i: usize = 0;
        while i < n
            invariant
                n == self.layers@.len(),
                n == old(self).layer_count(),
                0 <= i <= n,
                self.size == old(self).spec_size(),
                !self.shut_down,
                self.calls@ == old(self).calls() + destroy_calls(n as int).take(i as int),
            decreases n - i,
        {
            self.sync_context();
            self.layers[i].on_destroy(&mut self.ctx);
            self.calls = Ghost(self.calls@.push(HookCall::Destroy { layer: i as int }));
            proof {
                assert(destroy_calls(n as int).take(i + 1) =~= destroy_calls(n as int).take(i as int).push(
                    HookCall::Destroy { layer: i as int },
                ));
            }
            i = i + 1;
        }
        proof {
            assert(destroy_calls(n as int).take(i as int) =~= destroy_calls(n as int));
        }
        self.running = false;
        self.shut_down = true;
    }

    pub fn is_shut_down(&self) -> (r: bool)
        ensures
            r == self.spec_shut_down(),
    {
        self.shut_down
    }

    pub fn is_running(&self) -> (r: bool)
        ensures
            r == self.spec_running(),
    {
        self.running
    }

    /// Stops the application after the current frame.
    pub fn close(&mut self)
        ensures
            !final(self).spec_running(),
            final(self).layer_count() == old(self).layer_count(),
            final(self).spec_size() == old(self).spec_size(),
            final(self).spec_cursor_pos() == old(self).spec_cursor_pos(),
            final(self).spec_shut_down() == old(self).spec_shut_down(),
            final(self).calls() == old(self).calls(),
    {
        self.running = false;
    }

    pub fn get_size(&self) -> (r: (u32, u32))
        ensures
            r == self.spec_size(),
    {
        self.size
    }

    pub fn get_cursor_pos(&self) -> (r: (u64, u64))
        ensures
            r == self.spec_cursor_pos(),
    {
        self.cursor_pos
    }

    pub closed spec fn spec_renderer(&self) -> Renderer<D> {
        self.ctx.spec_renderer()
    }

    pub closed spec fn spec_layers(&self) -> Seq<L> {
        self.layers@
    }

    /// The renderer, for drawing or building objects outside the hooks.
    pub fn renderer(&mut self) -> (r: &mut Renderer<D>)
        ensures
            *r == old(self).spec_renderer(),
            final(self).spec_renderer() == *final(r),
            final(self).layer_count() == old(self).layer_count(),
            final(self).spec_size() == old(self).spec_size(),
            final(self).spec_cursor_pos() == old(self).spec_cursor_pos(),
            final(self).spec_running() == old(self).spec_running(),
            final(self).spec_shut_down() == old(self).spec_shut_down(),
            final(self).calls() == old(self).calls(),
    {
        self.ctx.renderer()
    }

    /// Layer `i` of the stack, counted from the bottom.
    pub fn layer(&self, i: usize) -> (r: &L)
        requires
            0 <= i < self.layer_count(),
        ensures
            *r == self.spec_layers()[i as int],
    {
        &self.layers[i]
    }

    pub fn len(&self) -> (r: usize)
        ensures
            r == self.layer_count(),
    {
        self.layers.len()
    }
}

} // verus!
