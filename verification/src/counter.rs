//! A counter: a number between a button that lowers it and one that raises it.

use vstd::prelude::*;

use crate::damage::Damage;
use crate::geometry::{zero_rect, Point, Rect};
use crate::scene::RenderCommand;
use crate::text::{decimal, decimal_text};
use crate::window::{ColorBits, WindowKind, WindowSettings};

verus! {

/// A colour with eight bits per channel: `0xRRGGBB`.
pub type Rgb = u32;

pub const BG: Rgb = 0x181820;

pub const IDLE: Rgb = 0x2E3448;

pub const HOT: Rgb = 0x4A6CAA;

pub const BORDER: Rgb = 0x788CBE;

pub const LABEL: Rgb = 0xDCE2F0;

pub const COUNT: Rgb = 0xF0F4FF;

/// Width and height of a button, in pixels.
pub const BUTTON_SIZE: u32 = 96;

/// Space between the parts of the row, in pixels.
pub const ROW_GAP: u32 = 28;

/// Border of a button, in pixels.
pub const BORDER_THICKNESS: u32 = 2;

/// Rounding of a button's corners, in pixels.
pub const BORDER_RADIUS: u32 = 16;

/// The left mouse button, in the numbering of the kernel.
pub const BTN_LEFT: u32 = 0x110;

/// The identity of a layout node that has no place in a tree yet.
pub const UNPLACED_NODE: u64 = 0xffff_ffff_ffff_ffff;

#[derive(Debug, Clone, Copy, PartialEq, Eq, Structural)]
pub enum Btn {
    Dec,
    Inc,
}

/// The pointer is at a point, or away.
#[derive(Debug, Clone, Copy, PartialEq, Eq, Structural)]
pub struct Hover(pub Option<Point>);

/// The left button went down at a point.
#[derive(Debug, Clone, Copy, PartialEq, Eq, Structural)]
pub struct Click(pub Point);

/// A run of text.
#[derive(Debug)]
pub struct Text {
    pub text: String,
    pub color: Rgb,
}

/// A bordered box with a label. `bounds` is where the layout put it.
#[derive(Debug)]
pub struct Button {
    pub bounds: Rect,
    pub color: Rgb,
    pub border_color: Rgb,
    pub border_thickness: u32,
    pub border_radius: u32,
    pub label: Text,
}

#[derive(Debug)]
pub struct Counter {
    pub node_id: u64,
    pub bounds: Rect,
    pub pending_damage: Damage,
    pub is_opaque: bool,
    pub count: u32,
    pub hovered: Option<Btn>,
    pub dec: Button,
    pub number: Text,
    pub inc: Button,
}

/// A pointer event of the counter's window. Coordinates are relative to its surface.
#[derive(Debug, Clone, Copy, PartialEq, Eq, Structural)]
pub enum PointerEvent {
    Enter { at: Point },
    Motion { at: Point },
    Leave,
    Button { pressed: bool, button: u32 },
    Other,
}

/// What the counter is told.
#[derive(Debug, Clone, Copy, PartialEq, Eq, Structural)]
pub enum Message {
    Hover(Hover),
    Click(Click),
}

pub fn glyph(s: &str, color: Rgb) -> (t: Text)
    ensures
        t.text@ == s@,
        t.color == color,
{
    Text { text: s.to_string(), color }
}

/// A button as it is before the layout has placed it.
pub fn button(label: &str) -> (b: Button)
    ensures
        b.bounds == zero_rect(),
        b.color == IDLE,
        b.border_color == BORDER,
        b.border_thickness == BORDER_THICKNESS,
        b.border_radius == BORDER_RADIUS,
        b.label.text@ == label@,
        b.label.color == LABEL,
{
    Button {
        bounds: Rect::zero(),
        color: IDLE,
        border_color: BORDER,
        border_thickness: BORDER_THICKNESS,
        border_radius: BORDER_RADIUS,
        label: glyph(label, LABEL),
    }
}

impl Counter {
    /// The button that a point is on. Where both are, the lowering one counts.
    pub open spec fn button_at(self, p: Point) -> Option<Btn> {
        if self.dec.bounds.spans(p.x as int, p.y as int) {
            Some(Btn::Dec)
        } else if self.inc.bounds.spans(p.x as int, p.y as int) {
            Some(Btn::Inc)
        } else {
            None
        }
    }

    /// The button that a hover is over.
    pub open spec fn hover_target(self, new: Hover) -> Option<Btn> {
        match new.0 {
            Some(p) => self.button_at(p),
            None => None,
        }
    }

    /// The layout gave both buttons edges that are representable.
    pub open spec fn placed(self) -> bool {
        self.dec.bounds.bounded() && self.inc.bounds.bounded()
    }

    /// Exactly the hovered button is hot, and the text shows the count.
    pub open spec fn consistent(self) -> bool {
        &&& self.dec.color == (if self.hovered == Some(Btn::Dec) {
            HOT
        } else {
            IDLE
        })
        &&& self.inc.color == (if self.hovered == Some(Btn::Inc) {
            HOT
        } else {
            IDLE
        })
        &&& self.number.text@ == decimal(self.count as nat)
    }

    /// The count after a click at `p`: one more, one less but not below 0, or the same.
    pub open spec fn count_after(self, p: Point) -> int {
        match self.button_at(p) {
            Some(Btn::Inc) => self.count + 1,
            Some(Btn::Dec) => if self.count == 0 {
                0
            } else {
                self.count - 1
            },
            None => self.count as int,
        }
    }

    /// A counter at 0 with nothing hovered.
    pub fn new() -> (c: Counter)
        ensures
            c.node_id == UNPLACED_NODE,
            c.bounds == zero_rect(),
            c.pending_damage is Unchanged,
            c.is_opaque,
            c.count == 0,
            c.hovered is None,
            c.dec.label.text@ == "-"@,
            c.inc.label.text@ == "+"@,
            c.dec.bounds == zero_rect(),
            c.inc.bounds == zero_rect(),
            c.dec.label.color == LABEL,
            c.inc.label.color == LABEL,
            c.dec.border_color == BORDER,
            c.inc.border_color == BORDER,
            c.dec.border_thickness == BORDER_THICKNESS,
            c.inc.border_thickness == BORDER_THICKNESS,
            c.dec.border_radius == BORDER_RADIUS,
            c.inc.border_radius == BORDER_RADIUS,
            c.number.color == COUNT,
            c.consistent(),
            c.placed(),
    {
        proof {
            reveal_strlit("0");
        }
        let c = Counter {
            node_id: UNPLACED_NODE,
            bounds: Rect::zero(),
            pending_damage: Damage::Unchanged,
            is_opaque: true,
            count: 0,
            hovered: None,
            dec: button("-"),
            number: glyph("0", COUNT),
            inc: button("+"),
        };
        assert(c.number.text@ =~= decimal(0));
        c
    }

    /// The counter itself paints nothing; its parts do.
    pub fn render<Q, T, S>(&self) -> (commands: Vec<RenderCommand<Q, T, S>>)
        ensures
            commands@.len() == 0,
    {
        Vec::new()
    }

    /// The button that `p` is on.
    pub fn hit(&self, p: Point) -> (b: Option<Btn>)
        requires
            self.placed(),
        ensures
            b == self.button_at(p),
            b == Some(Btn::Dec) ==> self.dec.bounds.origin.x <= p.x <= self.dec.bounds.origin.x
                + self.dec.bounds.size.width && self.dec.bounds.origin.y <= p.y
                <= self.dec.bounds.origin.y + self.dec.bounds.size.height,
            b == Some(Btn::Inc) ==> self.inc.bounds.origin.x <= p.x <= self.inc.bounds.origin.x
                + self.inc.bounds.size.width && self.inc.bounds.origin.y <= p.y
                <= self.inc.bounds.origin.y + self.inc.bounds.size.height,
    {
        if self.dec.bounds.contains_point(p) {
            Some(Btn::Dec)
        } else if self.inc.bounds.contains_point(p) {
            Some(Btn::Inc)
        } else {
            None
        }
    }

    fn set_button_color(&mut self, b: Btn, color: Rgb)
        ensures
            *final(self) == (match b {
                Btn::Dec => Counter { dec: Button { color, ..old(self).dec }, ..*old(self) },
                Btn::Inc => Counter { inc: Button { color, ..old(self).inc }, ..*old(self) },
            }),
    {
        match b {
            Btn::Dec => {
                self.dec.color = color;
            },
            Btn::Inc => {
                self.inc.color = color;
            },
        }
    }

    /// A change of the counter damages nothing by itself; its parts report their own damage.
    pub fn damage(&self) -> (d: Damage)
        ensures
            d is Unchanged,
    {
        Damage::Unchanged
    }

    /// The pointer moved: the button below it turns hot, the one that it left turns idle.
    pub fn change_hover(&mut self, new: Hover)
        requires
            old(self).consistent(),
            old(self).placed(),
        ensures
            hover_change(*old(self), new, *final(self)),
            final(self).consistent(),
            old(self).hover_target(new) == old(self).hovered ==> *final(self) == *old(self),
    {
        let target: Option<Btn> = match new.0 {
            Some(p) => self.hit(p),
            None => None,
        };
        let unchanged: bool = match (target, self.hovered) {
            (None, None) => true,
            (Some(a), Some(b)) => a == b,
            _ => false,
        };
        if unchanged {
            return ;
        }
        if let Some(left) = self.hovered {
            self.set_button_color(left, IDLE);
        }
        if let Some(t) = target {
            self.set_button_color(t, HOT);
        }
        self.hovered = target;
    }

    /// A click: the button that it is on changes the count, and the text follows. A click beside
    /// the buttons changes nothing.
    pub fn change_click(&mut self, new: Click)
        requires
            old(self).consistent(),
            old(self).placed(),
            old(self).button_at(new.0) == Some(Btn::Inc) ==> old(self).count < u32::MAX,
        ensures
            click_change(*old(self), new, *final(self)),
            final(self).consistent(),
            old(self).button_at(new.0) is None ==> *final(self) == *old(self),
    {
        match self.hit(new.0) {
            None => {
                return ;
            },
            Some(Btn::Inc) => {
                self.count = self.count + 1;
            },
            Some(Btn::Dec) => {
                if self.count > 0 {
                    self.count = self.count - 1;
                }
            },
        }
        self.number.text = decimal_text(self.count);
    }
}

/// `after` is what a hover makes of `before`: the button below the pointer is hovered and hot, the
/// other one idle, and nothing else changes.
pub open spec fn hover_change(before: Counter, new: Hover, after: Counter) -> bool {
    let target = before.hover_target(new);
    after == (Counter {
        hovered: target,
        dec: Button {
            color: if target == Some(Btn::Dec) {
                HOT
            } else {
                IDLE
            },
            ..before.dec
        },
        inc: Button {
            color: if target == Some(Btn::Inc) {
                HOT
            } else {
                IDLE
            },
            ..before.inc
        },
        ..before
    })
}

/// `after` is what a click makes of `before`: the count that the button it is on calls for, the
/// text of that count, and nothing else.
pub open spec fn click_change(before: Counter, new: Click, after: Counter) -> bool {
    &&& after.count == before.count_after(new.0)
    &&& after.number.text@ == decimal(after.count as nat)
    &&& after == (Counter {
        count: after.count,
        number: Text { text: after.number.text, ..before.number },
        ..before
    })
}

/// `after` is what a message makes of `before`.
pub open spec fn message_change(before: Counter, message: Message, after: Counter) -> bool {
    match message {
        Message::Hover(new) => hover_change(before, new, after),
        Message::Click(new) => click_change(before, new, after),
    }
}

/// The counter went from `states[0]` through `states` as `messages` came in.
pub open spec fn message_history(states: Seq<Counter>, messages: Seq<Message>) -> bool {
    &&& states.len() == messages.len() + 1
    &&& forall|i: int|
        0 <= i < messages.len() ==> message_change(
            states[i],
            #[trigger] messages[i],
            states[i + 1],
        )
}

/// The last hover among `messages`; that of a pointer away, if there was none.
pub open spec fn last_hover(messages: Seq<Message>) -> Hover
    decreases messages.len(),
{
    if messages.len() == 0 {
        Hover(None)
    } else {
        match messages.last() {
            Message::Hover(new) => new,
            Message::Click(_) => last_hover(messages.drop_last()),
        }
    }
}

/// What a pointer event tells the counter, when the pointer was last seen at `pointer`.
pub open spec fn message_for(pointer: Point, event: PointerEvent) -> Option<Message> {
    match event {
        PointerEvent::Enter { at } | PointerEvent::Motion { at } => Some(
            Message::Hover(Hover(Some(at))),
        ),
        PointerEvent::Leave => Some(Message::Hover(Hover(None))),
        PointerEvent::Button { pressed, button } => if pressed && button == BTN_LEFT {
            Some(Message::Click(Click(pointer)))
        } else {
            None
        },
        PointerEvent::Other => None,
    }
}

/// Where the pointer was last seen after an event.
pub open spec fn pointer_after(pointer: Point, event: PointerEvent) -> Point {
    match event {
        PointerEvent::Enter { at } | PointerEvent::Motion { at } => at,
        _ => pointer,
    }
}

/// Where the pointer counts as being before it was seen: outside every window.
pub fn initial_pointer() -> (p: Point)
    ensures
        p.x == -256,
        p.y == -256,
{
    Point::new(-256, -256)
}

/// Follow the pointer in `pointer`, and say what the counter is told.
pub fn on_pointer(pointer: &mut Point, event: PointerEvent) -> (message: Option<Message>)
    ensures
        message == message_for(*old(pointer), event),
        *final(pointer) == pointer_after(*old(pointer), event),
{
    match event {
        PointerEvent::Enter { at } => {
            *pointer = at;
            Some(Message::Hover(Hover(Some(at))))
        },
        PointerEvent::Motion { at } => {
            *pointer = at;
            Some(Message::Hover(Hover(Some(at))))
        },
        PointerEvent::Leave => Some(Message::Hover(Hover(None))),
        PointerEvent::Button { pressed, button } => {
            if pressed && button == BTN_LEFT {
                Some(Message::Click(Click(*pointer)))
            } else {
                None
            }
        },
        PointerEvent::Other => None,
    }
}

/// The window that the counter lives in.
pub fn window_settings<T, G>(clear_color: ColorBits) -> (settings: WindowSettings<T, G>)
    ensures
        settings.width == 480,
        settings.height == 240,
        settings.clear_color == clear_color,
        settings.kind matches WindowKind::Xdg { title } && title@ == "counter"@,
        settings.touch_config is None,
        settings.gesture_config is None,
        !settings.color_texture,
{
    WindowSettings {
        width: 480,
        height: 240,
        clear_color,
        kind: WindowKind::Xdg { title: "counter".to_string() },
        touch_config: None,
        gesture_config: None,
        color_texture: false,
    }
}

/// After any sequence of hovers and clicks, with the buttons where they are, the hovered button is
/// the one that the last hover was over. It is hot, and no other is; and the text shows the count.
pub proof fn hovering_follows_the_last_hover(states: Seq<Counter>, messages: Seq<Message>)
    requires
        message_history(states, messages),
        states[0].hovered is None,
        states[0].consistent(),
    ensures
        ({
            let c = states.last();
            &&& c.hovered == c.hover_target(last_hover(messages))
            &&& c.hovered == states[0].hover_target(last_hover(messages))
            &&& c.dec.bounds == states[0].dec.bounds
            &&& c.inc.bounds == states[0].inc.bounds
            &&& c.dec.color == HOT <==> c.hovered == Some(Btn::Dec)
            &&& c.inc.color == HOT <==> c.hovered == Some(Btn::Inc)
            &&& c.consistent()
        }),
    decreases messages.len(),
{
    if messages.len() > 0 {
        let n = messages.len() - 1;
        let earlier = states.drop_last();
        let before = messages.drop_last();
        assert forall|i: int| 0 <= i < before.len() implies message_change(
            earlier[i],
            #[trigger] before[i],
            earlier[i + 1],
        ) by {
            assert(before[i] == messages[i]);
        }
        hovering_follows_the_last_hover(earlier, before);
        assert(message_change(states[n], messages[n], states[n + 1]));
    }
}

/// A hover that does not change which button is hovered changes nothing at all.
pub proof fn unchanged_hover_is_idle(before: Counter, new: Hover, after: Counter)
    requires
        before.consistent(),
        before.hover_target(new) == before.hovered,
        hover_change(before, new, after),
    ensures
        after == before,
{
}

/// At most one button is hot, and only while it is hovered.
pub proof fn at_most_one_hot(c: Counter)
    requires
        c.consistent(),
    ensures
        !(c.dec.color == HOT && c.inc.color == HOT),
        c.hovered is None ==> c.dec.color == IDLE && c.inc.color == IDLE,
{
}

/// A click on each button in turn, raising first, gives the count back. `raised` is the counter
/// after the first click.
pub proof fn raising_then_lowering(c: Counter, raised: Counter, on_inc: Point, on_dec: Point)
    requires
        c.button_at(on_inc) == Some(Btn::Inc),
        c.button_at(on_dec) == Some(Btn::Dec),
        raised == (Counter { count: raised.count, number: raised.number, ..c }),
        raised.count == c.count_after(on_inc),
    ensures
        raised.count_after(on_dec) == c.count,
{
}

/// The count never goes below 0, and a click changes it by at most one.
pub proof fn clicks_are_single_steps(c: Counter, p: Point)
    ensures
        c.count_after(p) >= 0,
        -1 <= c.count_after(p) - c.count <= 1,
        c.button_at(p) is None ==> c.count_after(p) == c.count,
{
}

/// A click lands where the pointer was last seen, whatever else happened in between.
pub proof fn clicks_land_where_the_pointer_is(at: Point, between: PointerEvent, start: Point)
    requires
        !(between is Enter),
        !(between is Motion),
    ensures
        message_for(
            pointer_after(pointer_after(start, PointerEvent::Motion { at }), between),
            PointerEvent::Button { pressed: true, button: BTN_LEFT },
        ) == Some(Message::Click(Click(at))),
{
}

/// `p` lies between the edges of `r` on both axes, the edges counted in.
pub open spec fn lies_in(p: Point, r: Rect) -> bool {
    &&& r.origin.x <= p.x <= r.origin.x + r.size.width
    &&& r.origin.y <= p.y <= r.origin.y + r.size.height
}

/// A point hits a button exactly if it lies in the button's bounds on both axes; where the buttons
/// overlap the lowering one counts, and a point in neither hits none.
pub proof fn hits_lie_in_the_buttons_bounds(c: Counter, p: Point)
    ensures
        ({
            let (d, i) = (c.dec.bounds, c.inc.bounds);
            let in_dec = d.origin.x <= p.x && p.x - d.origin.x <= d.size.width && d.origin.y <= p.y
                && p.y - d.origin.y <= d.size.height;
            let in_inc = i.origin.x <= p.x && p.x - i.origin.x <= i.size.width && i.origin.y <= p.y
                && p.y - i.origin.y <= i.size.height;
            &&& c.button_at(p) == Some(Btn::Dec) <==> in_dec
            &&& c.button_at(p) == Some(Btn::Inc) <==> in_inc && !in_dec
            &&& c.button_at(p) is None <==> !in_dec && !in_inc
            &&& !in_dec && !in_inc ==> c.count_after(p) == c.count
        }),
{
}

/// What a click does to the count: in the raising button's bounds one more, in the lowering one's
/// one less but not below 0, and elsewhere nothing. The text is the count in digits, and nothing
/// else of the counter changes.
pub proof fn clicks_count_where_they_land(before: Counter, new: Click, after: Counter)
    requires
        click_change(before, new, after),
    ensures
        lies_in(new.0, before.dec.bounds) && before.count > 0 ==> after.count + 1 == before.count,
        lies_in(new.0, before.dec.bounds) && before.count == 0 ==> after.count == 0,
        lies_in(new.0, before.inc.bounds) && !lies_in(new.0, before.dec.bounds) ==> after.count
            == before.count + 1,
        !lies_in(new.0, before.inc.bounds) && !lies_in(new.0, before.dec.bounds) ==> after.count
            == before.count,
        crate::text::decimal_value(after.number.text@) == after.count,
        after.number.color == before.number.color,
        after.dec == before.dec,
        after.inc == before.inc,
        after.hovered == before.hovered,
        after.bounds == before.bounds,
        after.node_id == before.node_id,
        after.pending_damage == before.pending_damage,
        after.is_opaque == before.is_opaque,
{
    crate::text::decimal_reads_back(after.count as nat);
}

/// What a hover does: the button that the pointer lies in is hovered and hot, every other button is
/// idle, and nothing else of the counter changes. A pointer away lies in no button.
pub proof fn hovers_heat_the_button_below(before: Counter, at: Point, after: Counter)
    ensures
        hover_change(before, Hover(Some(at)), after) ==> {
            &&& after.hovered == Some(Btn::Dec) <==> lies_in(at, before.dec.bounds)
            &&& after.hovered == Some(Btn::Inc) <==> lies_in(at, before.inc.bounds) && !lies_in(
                at,
                before.dec.bounds,
            )
            &&& after.dec.color == HOT <==> lies_in(at, before.dec.bounds)
            &&& after.inc.color == HOT <==> lies_in(at, before.inc.bounds) && !lies_in(
                at,
                before.dec.bounds,
            )
            &&& after.dec.color == HOT || after.dec.color == IDLE
            &&& after.inc.color == HOT || after.inc.color == IDLE
        },
        hover_change(before, Hover(None), after) ==> after.hovered is None && after.dec.color
            == IDLE && after.inc.color == IDLE,
        hover_change(before, Hover(Some(at)), after) || hover_change(before, Hover(None), after)
            ==> {
            &&& after.count == before.count
            &&& after.number == before.number
            &&& after.dec.bounds == before.dec.bounds && after.inc.bounds == before.inc.bounds
            &&& after.dec.label == before.dec.label && after.inc.label == before.inc.label
            &&& after.dec.border_color == before.dec.border_color
            &&& after.inc.border_color == before.inc.border_color
            &&& after.bounds == before.bounds
            &&& after.node_id == before.node_id
        },
{
}

/// The counter as it stands is in order exactly if its hot buttons are the hovered one and its text
/// reads as the count.
pub proof fn consistent_counters_show_the_count(c: Counter)
    requires
        c.consistent(),
    ensures
        crate::text::decimal_value(c.number.text@) == c.count,
        c.dec.color == HOT <==> c.hovered == Some(Btn::Dec),
        c.inc.color == HOT <==> c.hovered == Some(Btn::Inc),
{
    crate::text::decimal_reads_back(c.count as nat);
}

/// What the counter is told of each event: where the pointer is when it enters or moves, that it is
/// away when it leaves, and a click when the left button goes down; of nothing else.
pub proof fn events_are_told_as_they_are(pointer: Point, at: Point, pressed: bool, button: u32)
    ensures
        message_for(pointer, PointerEvent::Enter { at }) == Some(Message::Hover(Hover(Some(at)))),
        message_for(pointer, PointerEvent::Motion { at }) == Some(Message::Hover(Hover(Some(at)))),
        message_for(pointer, PointerEvent::Leave) == Some(Message::Hover(Hover(None))),
        message_for(pointer, PointerEvent::Button { pressed, button }) == Some(
            Message::Click(Click(pointer)),
        ) <==> pressed && button == 0x110,
        !pressed || button != 0x110 ==> message_for(
            pointer,
            PointerEvent::Button { pressed, button },
        ) is None,
        message_for(pointer, PointerEvent::Other) is None,
        pointer_after(pointer, PointerEvent::Enter { at }) == at,
        pointer_after(pointer, PointerEvent::Motion { at }) == at,
        pointer_after(pointer, PointerEvent::Leave) == pointer,
        pointer_after(pointer, PointerEvent::Button { pressed, button }) == pointer,
        pointer_after(pointer, PointerEvent::Other) == pointer,
{
}

/// Whatever the layout, the counter takes events as long as the far edges of its buttons are
/// representable.
pub proof fn placed_means_representable_edges(c: Counter)
    ensures
        c.placed() <==> {
            let (d, i) = (c.dec.bounds, c.inc.bounds);
            &&& i64::MIN <= d.origin.x + d.size.width <= i64::MAX
            &&& i64::MIN <= d.origin.y + d.size.height <= i64::MAX
            &&& i64::MIN <= i.origin.x + i.size.width <= i64::MAX
            &&& i64::MIN <= i.origin.y + i.size.height <= i64::MAX
        },
{
}

} // verus!
