use vstd::prelude::*;

use crate::dispatch::{
    apply_messages, key_event_spec, key_seq, kb, messages_view, mod_presses, mod_releases,
    modifier_codes, mods_key_seq, repeat_spec, KeyHandler, MessageView, SwipeClaim, UIMessage,
};
use crate::gesture::{
    begin_spec, end_spec, hold_spec, move_spec, opt_events, Direction, GestureConfig,
    GestureEvent, KeyState, Recognizer,
};
use crate::keyboard::{active_on, handle_spec, key_type_of, KeyMessage, KeyType, Keyboard};
use crate::layout::{dir_action_of, BasicKey, KeyDef, Side, SwipeAction};

verus! {

/// The handler after classified events, in order, and what it sent.
pub open spec fn feed_spec(h: KeyHandler, events: Seq<GestureEvent>) -> (KeyHandler, Seq<MessageView>)
    decreases events.len(),
{
    if events.len() == 0 {
        (h, seq![])
    } else {
        let (h1, sent) = feed_spec(h, events.drop_last());
        let (h2, more) = key_event_spec(h1, events.last());
        (h2, sent + more)
    }
}

/// A move turned an unclaimed interaction into a swipe.
pub open spec fn claims_swipe(before: Recognizer, after: Recognizer) -> bool {
    before.state == KeyState::Unclaimed && after.state is Swiping
}

/// Hands classified events to a key's handler, in order.
fn feed(h: &mut KeyHandler, events: &Vec<GestureEvent>) -> (r: Vec<UIMessage>)
    ensures
        (*final(h), messages_view(r@)) == feed_spec(*old(h), events@),
{
    let mut out: Vec<UIMessage> = Vec::new();
    let mut i: usize = 0;
    assert(events@.take(0) =~= Seq::<GestureEvent>::empty());
    assert(messages_view(out@) =~= Seq::<MessageView>::empty());
    while i < events.len()
        invariant
            i <= events@.len(),
            (*h, messages_view(out@)) == feed_spec(*old(h), events@.take(i as int)),
        decreases events@.len() - i,
    {
        let ghost before = out@;
        let mut sent = h.handle(events[i]);
        proof {
            let taken = events@.take(i + 1);
            assert(taken.drop_last() =~= events@.take(i as int));
            assert(taken.last() == events@[i as int]);
        }
        let ghost sent_view = messages_view(sent@);
        out.append(&mut sent);
        assert(messages_view(out@) =~= messages_view(before) + sent_view);
        i += 1;
    }
    assert(events@.take(i as int) =~= events@);
    out
}

/// One key under interaction: the recognizer that classifies the
/// interaction and the handler that turns its events into messages.
#[derive(Debug)]
pub struct KeyControl {
    pub recognizer: Recognizer,
    pub handler: KeyHandler,
}

impl KeyControl {
    /// A key at rest.
    pub fn new(key: KeyDef, config: GestureConfig) -> (r: KeyControl)
        ensures
            r.recognizer == Recognizer::new_spec(config),
            r.handler == KeyHandler::new_spec(key),
    {
        KeyControl { recognizer: Recognizer::new(config), handler: KeyHandler::new(key) }
    }

    /// An interaction begins; returns the name to hand back when its hold
    /// timer fires.
    pub fn begin(&mut self) -> (token: u64)
        ensures
            final(self).recognizer == begin_spec(old(self).recognizer),
            final(self).handler == old(self).handler,
            token == final(self).recognizer.interaction,
    {
        self.recognizer.begin()
    }

    /// The hold timer of interaction `token` has fired.
    pub fn hold_elapsed(&mut self, token: u64) -> (r: Vec<UIMessage>)
        ensures
            ({
                let (rec, events) = hold_spec(old(self).recognizer, token);
                &&& final(self).recognizer == rec
                &&& (final(self).handler, messages_view(r@)) == feed_spec(
                    old(self).handler,
                    opt_events(events),
                )
            }),
    {
        let event = self.recognizer.hold_elapsed(token);
        let mut events: Vec<GestureEvent> = Vec::new();
        if let Some(e) = event {
            events.push(e);
        }
        assert(events@ =~= opt_events(event));
        feed(&mut self.handler, &events)
    }

    /// A move sample at offset `(x, y)` from where the interaction began.
    /// A move that claims a swipe tells the handler so, whether or not
    /// the swipe resolved to a direction.
    pub fn moved(&mut self, x: i32, y: i32) -> (r: Vec<UIMessage>)
        ensures
            ({
                let (rec, events) = move_spec(old(self).recognizer, x, y);
                let handler = if claims_swipe(old(self).recognizer, rec) {
                    old(self).handler.claim_spec()
                } else {
                    old(self).handler
                };
                &&& final(self).recognizer == rec
                &&& (final(self).handler, messages_view(r@)) == feed_spec(handler, events)
            }),
    {
        let unclaimed = self.recognizer.state.can_swipe();
        let events = self.recognizer.moved(x, y);
        if unclaimed && self.recognizer.state.last_swipe_offset().is_some() {
            self.handler.claim_swipe();
        }
        feed(&mut self.handler, &events)
    }

    /// The interaction ends.
    pub fn end(&mut self) -> (r: Vec<UIMessage>)
        ensures
            ({
                let (rec, events) = end_spec(old(self).recognizer);
                &&& final(self).recognizer == rec
                &&& (final(self).handler, messages_view(r@)) == feed_spec(
                    old(self).handler,
                    events,
                )
            }),
    {
        let events = self.recognizer.end();
        feed(&mut self.handler, &events)
    }
}


/// A message that switches a layer.
pub open spec fn switches_layer(m: MessageView) -> bool {
    match m {
        MessageView::Keyboard(KeyMessage::Layer(_, _)) => true,
        MessageView::Keyboard(KeyMessage::MouseLayer(_)) => true,
        _ => false,
    }
}

/// No message switches a layer.
pub open spec fn layer_neutral(msgs: Seq<MessageView>) -> bool {
    forall|i: int| 0 <= i < msgs.len() ==> !switches_layer(#[trigger] msgs[i])
}

/// An event of a claimed swipe being dragged on.
pub open spec fn is_drag_event(e: GestureEvent) -> bool {
    e is SwipeRepeated || e is FreeMove
}

proof fn lemma_neutral_keeps_layers(board: Keyboard, msgs: Seq<MessageView>)
    requires
        layer_neutral(msgs),
    ensures
        apply_messages(board, msgs).layer == board.layer,
    decreases msgs.len(),
{
    if msgs.len() > 0 {
        assert(!switches_layer(msgs[0]));
        let b1 = match msgs[0] {
            MessageView::Keyboard(m) => handle_spec(board, m),
            _ => board,
        };
        assert(b1.layer == board.layer);
        let rest = msgs.subrange(1, msgs.len() as int);
        assert forall|i: int| 0 <= i < rest.len() implies !switches_layer(#[trigger] rest[i]) by {
            assert(rest[i] == msgs[i + 1]);
        }
        lemma_neutral_keeps_layers(b1, rest);
    }
}

proof fn lemma_neutral_concat(a: Seq<MessageView>, b: Seq<MessageView>)
    requires
        layer_neutral(a),
        layer_neutral(b),
    ensures
        layer_neutral(a + b),
{
    assert forall|i: int| 0 <= i < (a + b).len() implies !switches_layer(#[trigger] (a + b)[i]) by {
        if i >= a.len() {
            assert((a + b)[i] == b[i - a.len()]);
        }
    }
}

proof fn lemma_repeat_is_neutral(k: BasicKey, a: SwipeAction, d: Direction)
    ensures
        layer_neutral(repeat_spec(k, a, d)),
{
    let sent = repeat_spec(k, a, d);
    match a {
        SwipeAction::ModKey(c, mods) => {
            let codes = modifier_codes(mods@);
            let p = mod_presses(codes);
            let r = mod_releases(codes);
            assert(layer_neutral(p));
            assert(layer_neutral(r));
            assert(layer_neutral(key_seq(c)));
            lemma_neutral_concat(p, key_seq(c));
            lemma_neutral_concat(p + key_seq(c), r);
            assert(sent == mods_key_seq(codes, c));
        },
        _ => {
            assert forall|i: int| 0 <= i < sent.len() implies !switches_layer(#[trigger] sent[i]) by {
            }
        },
    }
}

proof fn lemma_drags_keep_handler(h: KeyHandler, k: BasicKey, events: Seq<GestureEvent>)
    requires
        h.key == KeyDef::Basic(k),
        key_type_of(k.key) == KeyType::Normal,
        forall|i: int| 0 <= i < events.len() ==> is_drag_event(#[trigger] events[i]),
    ensures
        feed_spec(h, events).0 == h,
        layer_neutral(feed_spec(h, events).1),
    decreases events.len(),
{
    if events.len() > 0 {
        let front = events.drop_last();
        assert forall|i: int| 0 <= i < front.len() implies is_drag_event(#[trigger] front[i]) by {
            assert(front[i] == events[i]);
        }
        lemma_drags_keep_handler(h, k, front);
        let e = events.last();
        assert(is_drag_event(events[events.len() - 1]));
        let (h2, more) = key_event_spec(h, e);
        match e {
            GestureEvent::SwipeRepeated(d) => {
                if let Some(a) = dir_action_of(k, d) {
                    lemma_repeat_is_neutral(k, a, d);
                }
            },
            _ => {},
        }
        assert(layer_neutral(more));
        lemma_neutral_concat(feed_spec(h, front).1, more);
    }
}

proof fn lemma_apply_layer_then_update(board: Keyboard, side: Side, idx: usize)
    ensures
        active_on(
            apply_messages(
                board,
                seq![kb(KeyMessage::Layer(side, idx)), MessageView::UpdateLayout],
            ),
            side,
        ) == idx,
{
    let msgs = seq![kb(KeyMessage::Layer(side, idx)), MessageView::UpdateLayout];
    let b1 = handle_spec(board, KeyMessage::Layer(side, idx));
    let rest = msgs.subrange(1, 2);
    assert(rest =~= seq![MessageView::UpdateLayout]);
    assert(rest.subrange(1, 1) =~= Seq::<MessageView>::empty());
    assert(apply_messages(b1, rest.subrange(1, 1)) == b1);
    assert(apply_messages(b1, rest) == b1);
    assert(apply_messages(board, msgs) == b1);
}

/// A swipe on a plain key whose action switches a side to a layer makes
/// that layer active at once; dragging the swipe on, in any direction,
/// leaves it active; the end of the interaction makes the side's default
/// layer active again.
pub proof fn lemma_layer_switch_pairs(
    h: KeyHandler,
    k: BasicKey,
    dir: Direction,
    side: Side,
    idx: usize,
    board: Keyboard,
    drags: Seq<GestureEvent>,
)
    requires
        h.key == KeyDef::Basic(k),
        key_type_of(k.key) == KeyType::Normal,
        dir_action_of(k, dir) == Some(SwipeAction::Layer(side, idx)),
        forall|i: int| 0 <= i < drags.len() ==> is_drag_event(#[trigger] drags[i]),
    ensures
        ({
            let (h1, pressed) = key_event_spec(h, GestureEvent::SwipePressed(dir));
            let (h2, dragged) = feed_spec(h1, drags);
            let (h3, released) = key_event_spec(h2, GestureEvent::Released);
            let board1 = apply_messages(board, pressed);
            let board2 = apply_messages(board1, dragged);
            let board3 = apply_messages(board2, released);
            &&& active_on(board1, side) == idx
            &&& active_on(board2, side) == idx
            &&& active_on(board3, side) == 0
            &&& h3.claim == SwipeClaim::NotClaimed
        }),
{
    let (h1, pressed) = key_event_spec(h, GestureEvent::SwipePressed(dir));
    assert(pressed =~= seq![kb(KeyMessage::Layer(side, idx)), MessageView::UpdateLayout]);
    assert(h1.claim == SwipeClaim::Claimed(Some(dir)));
    assert(h1.key == h.key);
    lemma_apply_layer_then_update(board, side, idx);
    let board1 = apply_messages(board, pressed);
    lemma_drags_keep_handler(h1, k, drags);
    let (h2, dragged) = feed_spec(h1, drags);
    lemma_neutral_keeps_layers(board1, dragged);
    let board2 = apply_messages(board1, dragged);
    let (_, released) = key_event_spec(h2, GestureEvent::Released);
    assert(released =~= seq![kb(KeyMessage::Layer(side, 0)), MessageView::UpdateLayout]);
    lemma_apply_layer_then_update(board2, side, 0);
}

} // verus!
