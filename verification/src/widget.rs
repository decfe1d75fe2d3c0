//! The rotating-text widget: content, timing state, and the cached render.
//!
//! The widget is poll-driven. The host calls `next` once per scheduler
//! wake; the widget decides whether to begin, continue or stop the
//! rotation, and by how much to advance the scroll offset. Every mutation
//! ends in the one internal refresh step, so the cached rendered record is
//! never stale when a public call returns.
//!
//! Time is measured in whole milliseconds since the widget's construction.
//! The clock readings themselves are outside input, so every state change
//! is also available through a `*_at` variant that takes the reading as an
//! argument and carries the exact contract; the clockful variants promise
//! the same relation for the reading they made.
//!
//! A zero display width makes every nonempty text wider than the display:
//! such a widget rotates continuously and its visible window is empty.

use vstd::prelude::*;
use crate::clock::duration_millis;
use crate::clock::instant_now;
use crate::clock::since;
use crate::render::NONEMPTY_MIN_WIDTH;
use crate::render::RenderModel;
use crate::render::Rendered;
use crate::render::json_of_record;
use crate::render::render_json;
use crate::state::State;
use crate::state::bg_key_of;
use crate::state::fg_key_of;
use crate::text::chars_eq;
use crate::text::chars_of;
use crate::theme::color_of;
use crate::theme::icon_table;
use crate::theme::theme_color;
use crate::theme::theme_icon;
use crate::window::visible_window;
use crate::window::window_of;

verus! {

/// A failed lookup in the theme: a configuration error that aborts the
/// responsible call rather than silently substituting a default.
#[derive(Clone, Copy, Debug, PartialEq, Eq, Structural)]
pub enum ThemeError {
    UnknownIcon,
}

/// The mathematical model of a widget: every field the contracts speak of.
/// The theme is an opaque outside value; the contracts speak of its string
/// entries through `icon_table` and `color_table`. The clock anchor stays
/// out: a reading of it depends on when it is made.
pub ghost struct Model {
    pub theme: serde_json::Value,
    pub rotation_pos: nat,
    pub width: nat,
    pub rotation_interval: u64,
    pub rotation_speed: u64,
    pub next_rotation: Option<u64>,
    pub content: Seq<char>,
    pub icon: Option<Seq<char>>,
    pub state: State,
    pub rendered: RenderModel,
    pub cached_output: Seq<char>,
    pub rotating: bool,
}

/// The text of the rendered record: the icon glyph (or a single blank
/// placeholder), the visible window, and a trailing space.
pub open spec fn full_text_of(m: Model) -> Seq<char> {
    (match m.icon {
        Some(g) => g,
        None => " "@,
    }) + window_of(m.content, m.width as int, m.rotation_pos as int) + " "@
}

/// The cached render is consistent with the widget's fields: the record is
/// what the refresh step builds from them — the composed text, the fixed
/// fields, the colors the theme holds under the state's key pair — and the
/// cached output is the record's serialized form.
pub open spec fn rendered_ok(m: Model) -> bool {
    &&& m.rendered.full_text == full_text_of(m)
    &&& m.rendered.separator == false
    &&& m.rendered.separator_block_width == 0
    &&& m.rendered.min_width == (if m.content.len() == 0 {
        0u64
    } else {
        NONEMPTY_MIN_WIDTH
    })
    &&& m.rendered.align == "left"@
    &&& m.rendered.background == color_of(m.theme, bg_key_of(m.state))
    &&& m.rendered.color == color_of(m.theme, fg_key_of(m.state))
    &&& m.cached_output == json_of_record(m.rendered)
}

/// The rotation-state invariant.
pub open spec fn core_inv(m: Model) -> bool {
    &&& m.rotation_pos <= m.content.len()
    &&& (!m.rotating ==> m.rotation_pos == 0)
    &&& (m.rotating ==> m.next_rotation is Some)
    &&& (m.content.len() <= m.width ==> m.next_rotation is None && !m.rotating)
}

/// The full widget invariant: rotation state plus cache consistency.
pub open spec fn inv(m: Model) -> bool {
    core_inv(m) && rendered_ok(m)
}

/// The two models agree on everything but the cached render, which the
/// refresh step rebuilds (and `rendered_ok` pins against the new fields).
pub open spec fn same_except_render(a: Model, b: Model) -> bool {
    &&& a.theme == b.theme
    &&& a.rotation_pos == b.rotation_pos
    &&& a.width == b.width
    &&& a.rotation_interval == b.rotation_interval
    &&& a.rotation_speed == b.rotation_speed
    &&& a.next_rotation == b.next_rotation
    &&& a.content == b.content
    &&& a.icon == b.icon
    &&& a.state == b.state
    &&& a.rotating == b.rotating
}

/// One tick of the rotation state machine, at clock reading `now`: the
/// next model (its cached render copied unchanged; `advance_rel` accounts
/// for the rebuild), whether anything visible changed, and the advisory
/// sleep hint handed back to the host.
///
/// With no wake time set the widget asks for no further wake-ups. With the
/// wake time still ahead nothing changes and the hint is the remaining
/// delay. At an arrived wake time, a paused widget first arms (one tick
/// that only starts the scroll), a scrolling widget advances the offset by
/// one until the offset reaches the text length, and then resets to the
/// paused start, scheduling the next wake one pause interval ahead.
pub open spec fn step_model(m: Model, now: u64) -> (Model, bool, Option<u64>) {
    match m.next_rotation {
        None => (m, false, None),
        Some(t) => if now < t {
            (m, false, Some((t - now) as u64))
        } else if !m.rotating {
            (Model { rotating: true, ..m }, true, Some(m.rotation_speed))
        } else if m.rotation_pos < m.content.len() {
            (
                Model {
                    rotation_pos: (m.rotation_pos + 1) as nat,
                    next_rotation: Some(now.saturating_add(m.rotation_speed)),
                    ..m
                },
                true,
                Some(m.rotation_speed),
            )
        } else {
            (
                Model {
                    rotation_pos: 0,
                    rotating: false,
                    next_rotation: Some(now.saturating_add(m.rotation_interval)),
                    ..m
                },
                true,
                Some(m.rotation_interval),
            )
        },
    }
}

/// Whether the tick at `now` rebuilds the cached render (only the two
/// branches that move the offset do; the arm tick and the idle returns
/// leave the record as it is).
pub open spec fn step_renders(m: Model, now: u64) -> bool {
    match m.next_rotation {
        None => false,
        Some(t) => now >= t && m.rotating,
    }
}

/// How a tick relates the widget before and after the call: the control
/// fields follow `step_model`, and the cached render is untouched unless
/// the tick rebuilds it.
pub open spec fn advance_rel(pre: Model, post: Model, now: u64, changed: bool, hint: Option<
    u64,
>) -> bool {
    let (m2, c2, h2) = step_model(pre, now);
    &&& same_except_render(post, m2)
    &&& changed == c2
    &&& hint == h2
    &&& (!step_renders(pre, now) ==> post.rendered == pre.rendered && post.cached_output
        == pre.cached_output)
}

/// How an unconditional content replacement at clock reading `now` relates
/// the widget before and after the call: the content is replaced, the
/// offset reset, the rotation stopped, and the next wake set one pause
/// interval ahead exactly when the new content is wider than the display.
/// The builders apply this even to character-identical content.
pub open spec fn replace_text_rel(pre: Model, post: Model, content: Seq<char>, now: u64) -> bool {
    same_except_render(
        post,
        Model {
            content: content,
            rotation_pos: 0,
            rotating: false,
            next_rotation: if content.len() > pre.width {
                Some(now.saturating_add(pre.rotation_interval))
            } else {
                None
            },
            ..pre
        },
    )
}

/// How `set_text` at clock reading `now` relates the widget before and
/// after the call: identical content is a complete no-op — no field
/// changes and no cache rebuild — and anything else is an unconditional
/// replacement.
pub open spec fn set_text_rel(pre: Model, post: Model, content: Seq<char>, now: u64) -> bool {
    if pre.content == content {
        post == pre
    } else {
        replace_text_rel(pre, post, content, now)
    }
}

/// The clock reading at which the pending wake time has just arrived.
pub open spec fn arrived_now(m: Model) -> u64 {
    match m.next_rotation {
        Some(t) => t,
        None => 0,
    }
}

/// `n` ticks of the state machine, each at a clock reading that reports
/// the pending wake time as just arrived.
pub open spec fn run_arrived(m: Model, n: nat) -> Model
    decreases n,
{
    if n == 0 {
        m
    } else {
        run_arrived(step_model(m, arrived_now(m)).0, (n - 1) as nat)
    }
}

/// From a scrolling model with `k` characters left before the offset
/// reaches the end, `k` arrived ticks advance the offset one character
/// each, and one more resets it to zero and pauses the rotation.
proof fn lemma_scroll_to_close(m: Model, k: nat)
    requires
        m.rotating,
        m.next_rotation is Some,
        m.rotation_pos + k == m.content.len(),
        m.content.len() > m.width,
    ensures
        forall|j: nat|
            j <= k ==> (#[trigger] run_arrived(m, j)).rotation_pos == m.rotation_pos + j
                && run_arrived(m, j).rotating && run_arrived(m, j).content == m.content
                && run_arrived(m, j).next_rotation is Some,
        run_arrived(m, k + 1).rotation_pos == 0,
        !run_arrived(m, k + 1).rotating,
        run_arrived(m, k + 1).next_rotation is Some,
        run_arrived(m, k + 1).content == m.content,
    decreases k,
{
    let t = arrived_now(m);
    let m1 = step_model(m, t).0;
    if k == 0 {
        assert(run_arrived(m, 1) == run_arrived(m1, 0));
    } else {
        lemma_scroll_to_close(m1, (k - 1) as nat);
        assert forall|j: nat|
            j <= k implies (#[trigger] run_arrived(m, j)).rotation_pos == m.rotation_pos + j
            && run_arrived(m, j).rotating && run_arrived(m, j).content == m.content
            && run_arrived(m, j).next_rotation is Some by {
            if j > 0 {
                assert(run_arrived(m, j) == run_arrived(m1, (j - 1) as nat));
            }
        }
        assert(run_arrived(m, k + 1) == run_arrived(m1, k));
        assert(run_arrived(m1, ((k - 1) as nat) + 1) == run_arrived(m1, k));
    }
}

/// Cycle closure. From the paused start of a text wider than the display,
/// with a clock that always reports the wake time as arrived: the first
/// tick is the arm tick (the scroll starts, the offset stays at zero), and
/// exactly `len(text) + 1` further ticks return the offset to zero — one
/// per character until the offset reaches `len(text)`, then the reset that
/// pauses the widget at the start again, with a wake time still set.
pub proof fn lemma_cycle_closure(m: Model)
    requires
        core_inv(m),
        !m.rotating,
        m.next_rotation is Some,
        m.content.len() > m.width,
    ensures
        run_arrived(m, 1).rotating,
        run_arrived(m, 1).rotation_pos == 0,
        run_arrived(m, 1).content == m.content,
        forall|k: nat|
            1 <= k <= m.content.len() ==> (#[trigger] run_arrived(m, k + 1)).rotation_pos == k
                && run_arrived(m, k + 1).rotating,
        run_arrived(m, m.content.len() + 2).rotation_pos == 0,
        !run_arrived(m, m.content.len() + 2).rotating,
        run_arrived(m, m.content.len() + 2).next_rotation is Some,
        run_arrived(m, m.content.len() + 2).content == m.content,
{
    let t = arrived_now(m);
    let armed = step_model(m, t).0;
    assert(run_arrived(m, 1) == run_arrived(armed, 0));
    lemma_scroll_to_close(armed, m.content.len());
    assert forall|k: nat|
        1 <= k <= m.content.len() implies (#[trigger] run_arrived(m, k + 1)).rotation_pos == k
        && run_arrived(m, k + 1).rotating by {
        assert(run_arrived(m, k + 1) == run_arrived(armed, k));
    }
    assert(run_arrived(m, m.content.len() + 2) == run_arrived(armed, m.content.len() + 1));
}

/// A text that fits in the display never rotates: after any content
/// replacement whose text is no wider than the display, the wake time is
/// cleared and the visible window is the full text.
pub proof fn lemma_static_text(pre: Model, post: Model, content: Seq<char>, now: u64)
    requires
        inv(pre),
        set_text_rel(pre, post, content, now),
        content.len() <= pre.width,
    ensures
        post.next_rotation is None,
        post.content == content,
        window_of(post.content, post.width as int, post.rotation_pos as int) == content,
{
    if pre.content == content {
        crate::window::lemma_window_fits(content, post.width as int, post.rotation_pos as int);
    } else {
        crate::window::lemma_window_fits(content, post.width as int, 0);
    }
}

/// A text-rotation display element for a status-bar host.
pub struct RotatingTextWidget {
    rotation_pos: usize,
    width: usize,
    rotation_interval: u64,
    rotation_speed: u64,
    next_rotation: Option<u64>,
    content: Vec<char>,
    icon: Option<String>,
    state: State,
    rendered: Rendered,
    cached_output: String,
    theme: serde_json::Value,
    epoch: std::time::Instant,
    pub rotating: bool,
}

impl View for RotatingTextWidget {
    type V = Model;

    closed spec fn view(&self) -> Model {
        Model {
            theme: self.theme,
            rotation_pos: self.rotation_pos as nat,
            width: self.width as nat,
            rotation_interval: self.rotation_interval,
            rotation_speed: self.rotation_speed,
            next_rotation: self.next_rotation,
            content: self.content@,
            icon: match self.icon {
                Some(s) => Some(s@),
                None => None,
            },
            state: self.state,
            rendered: self.rendered@,
            cached_output: self.cached_output@,
            rotating: self.rotating,
        }
    }
}

impl RotatingTextWidget {
    /// The widget invariant, as seen through its model.
    pub open spec fn wf(&self) -> bool {
        inv(self@)
    }

    /// Rebuilds the cached rendered record and its serialized form from the
    /// current fields. The one place the cache is written; every mutating
    /// public call ends here.
    fn update(&mut self)
        requires
            old(self)@.rotation_pos <= old(self)@.content.len(),
        ensures
            same_except_render(final(self)@, old(self)@),
            rendered_ok(final(self)@),
    {
        let (key_bg, key_fg) = self.state.theme_keys();
        let bg = theme_color(&self.theme, key_bg);
        let fg = theme_color(&self.theme, key_fg);
        let mut full = String::new();
        match &self.icon {
            Some(g) => full.append(g.as_str()),
            None => full.append(" "),
        }
        let window = visible_window(&self.content, self.width, self.rotation_pos);
        full.append(window.as_str());
        full.append(" ");
        proof {
            assert(((Seq::<char>::empty() + (match self@.icon {
                Some(g) => g,
                None => " "@,
            })) + window_of(self@.content, self@.width as int, self@.rotation_pos as int)) + " "@
                =~= full_text_of(self@));
        }
        let min_width: u64 = if self.content.len() == 0 {
            0
        } else {
            NONEMPTY_MIN_WIDTH
        };
        self.rendered = Rendered {
            full_text: full,
            separator: false,
            separator_block_width: 0,
            min_width: min_width,
            align: String::from_str("left"),
            background: bg,
            color: fg,
        };
        self.cached_output = render_json(&self.rendered);
    }

    /// A fresh widget: empty content, no icon, `Idle` state, no wake time,
    /// and the cache already consistent (built against the theme's idle
    /// style).
    pub fn new(interval: u64, speed: u64, width: usize, theme: serde_json::Value) -> (w:
        RotatingTextWidget)
        ensures
            w.wf(),
            w@.rotation_interval == interval,
            w@.rotation_speed == speed,
            w@.width == width as nat,
            w@.content == Seq::<char>::empty(),
            w@.rotation_pos == 0,
            w@.next_rotation is None,
            w@.icon is None,
            w@.state == State::Idle,
            w@.rotating == false,
            w@.theme == theme,
    {
        let mut w = RotatingTextWidget {
            rotation_pos: 0,
            width: width,
            rotation_interval: interval,
            rotation_speed: speed,
            next_rotation: None,
            content: Vec::new(),
            icon: None,
            state: State::Idle,
            rendered: Rendered {
                full_text: String::new(),
                separator: false,
                separator_block_width: 0,
                min_width: 0,
                align: String::new(),
                background: None,
                color: None,
            },
            cached_output: String::new(),
            theme: theme,
            epoch: instant_now(),
            rotating: false,
        };
        w.update();
        w
    }

    /// The clock reading for this call, in milliseconds since construction.
    fn now_millis(&self) -> u64 {
        let t = instant_now();
        let d = since(&t, &self.epoch);
        let ms = duration_millis(&d);
        if ms > u64::MAX as u128 {
            u64::MAX
        } else {
            ms as u64
        }
    }

    /// Replaces the content as of clock reading `now`. Identical content is
    /// a complete no-op: no field changes and no cache rebuild.
    pub fn set_text_at(&mut self, content: String, now: u64)
        requires
            old(self).wf(),
        ensures
            final(self).wf(),
            set_text_rel(old(self)@, final(self)@, content@, now),
            old(self)@.content == content@ ==> *final(self) == *old(self),
    {
        if !chars_eq(&self.content, content.as_str()) {
            self.replace_text(content.as_str(), now);
        }
    }

    /// Replaces the content unconditionally, as of clock reading `now`.
    fn replace_text(&mut self, content: &str, now: u64)
        requires
            old(self).wf(),
        ensures
            final(self).wf(),
            replace_text_rel(old(self)@, final(self)@, content@, now),
    {
        self.content = chars_of(content);
        self.rotation_pos = 0;
        self.rotating = false;
        if self.content.len() > self.width {
            self.next_rotation = Some(now.saturating_add(self.rotation_interval));
        } else {
            self.next_rotation = None;
        }
        self.update();
    }

    /// Replaces the content, reading the clock for the wake time.
    pub fn set_text(&mut self, content: String)
        requires
            old(self).wf(),
        ensures
            final(self).wf(),
            exists|now: u64| set_text_rel(old(self)@, final(self)@, content@, now),
            old(self)@.content == content@ ==> *final(self) == *old(self),
    {
        let now = self.now_millis();
        self.set_text_at(content, now);
    }

    /// Builder form of the content replacement, as of clock reading `now`.
    /// Unlike `set_text_at`, the builder re-applies even character-identical
    /// content: the offset is reset and the wake time re-armed from `now`.
    pub fn with_text_at(self, content: &str, now: u64) -> (w: RotatingTextWidget)
        requires
            self.wf(),
        ensures
            w.wf(),
            replace_text_rel(self@, w@, content@, now),
    {
        let mut w = self;
        w.replace_text(content, now);
        w
    }

    /// Builder form of the content replacement, reading the clock for the
    /// wake time. Re-applies even character-identical content.
    pub fn with_text(self, content: &str) -> (w: RotatingTextWidget)
        requires
            self.wf(),
        ensures
            w.wf(),
            exists|now: u64| replace_text_rel(self@, w@, content@, now),
    {
        let mut w = self;
        let now = w.now_millis();
        w.replace_text(content, now);
        w
    }

    /// Sets the icon to a glyph already in hand.
    pub fn set_icon_glyph(&mut self, glyph: String)
        requires
            old(self).wf(),
        ensures
            final(self).wf(),
            same_except_render(final(self)@, Model { icon: Some(glyph@), ..old(self)@ }),
    {
        self.icon = Some(glyph);
        self.update();
    }

    /// Resolves `name` in the theme's icon table and sets the icon to the
    /// glyph found there — it succeeds exactly when the table maps the
    /// name. A theme without the key is a configuration error: the call
    /// aborts with `ThemeError::UnknownIcon` and changes nothing, never
    /// silently substituting a blank icon.
    pub fn set_icon(&mut self, name: &str) -> (r: Result<(), ThemeError>)
        requires
            old(self).wf(),
        ensures
            final(self).wf(),
            r is Ok <==> icon_table(old(self)@.theme).contains_key(name@),
            r is Err ==> *final(self) == *old(self),
            r is Ok ==> final(self)@.icon == Some(icon_table(old(self)@.theme)[name@])
                && same_except_render(
                final(self)@,
                Model { icon: final(self)@.icon, ..old(self)@ },
            ),
    {
        match theme_icon(&self.theme, name) {
            Some(g) => {
                self.set_icon_glyph(g);
                Ok(())
            },
            None => Err(ThemeError::UnknownIcon),
        }
    }

    /// Builder form of `set_icon`: succeeds exactly when the theme's icon
    /// table maps the name, and then stores the mapped glyph.
    pub fn with_icon(self, name: &str) -> (r: Result<RotatingTextWidget, ThemeError>)
        requires
            self.wf(),
        ensures
            r is Ok <==> icon_table(self@.theme).contains_key(name@),
            r matches Ok(w) ==> w.wf() && w@.icon == Some(icon_table(self@.theme)[name@])
                && same_except_render(
                w@,
                Model { icon: w@.icon, ..self@ },
            ),
    {
        let mut w = self;
        match w.set_icon(name) {
            Ok(()) => Ok(w),
            Err(e) => Err(e),
        }
    }

    /// Stores the emphasis state, which selects the two theme keys the
    /// refresh step looks the colors up under. The composed text is not
    /// touched: only the colors of the rendered record change, to the
    /// theme's values under the new state's key pair.
    pub fn set_state(&mut self, state: State)
        requires
            old(self).wf(),
        ensures
            final(self).wf(),
            same_except_render(final(self)@, Model { state: state, ..old(self)@ }),
            final(self)@.rendered.full_text == old(self)@.rendered.full_text,
            final(self)@.rendered.min_width == old(self)@.rendered.min_width,
            final(self)@.rendered.background == color_of(old(self)@.theme, bg_key_of(state)),
            final(self)@.rendered.color == color_of(old(self)@.theme, fg_key_of(state)),
    {
        self.state = state;
        self.update();
    }

    /// Builder form of `set_state`.
    pub fn with_state(self, state: State) -> (w: RotatingTextWidget)
        requires
            self.wf(),
        ensures
            w.wf(),
            same_except_render(w@, Model { state: state, ..self@ }),
            w@.rendered.full_text == self@.rendered.full_text,
            w@.rendered.background == color_of(self@.theme, bg_key_of(state)),
            w@.rendered.color == color_of(self@.theme, fg_key_of(state)),
    {
        let mut w = self;
        w.set_state(state);
        w
    }

    /// One scheduler tick, at clock reading `now`: follows `step_model`
    /// exactly and returns whether anything visible changed, with the
    /// advisory sleep hint for the host.
    pub fn next_at(&mut self, now: u64) -> (r: (bool, Option<u64>))
        requires
            old(self).wf(),
        ensures
            final(self).wf(),
            advance_rel(old(self)@, final(self)@, now, r.0, r.1),
    {
        match self.next_rotation {
            Some(t) => {
                if now < t {
                    (false, Some(t - now))
                } else if !self.rotating {
                    self.rotating = true;
                    (true, Some(self.rotation_speed))
                } else if self.rotation_pos < self.content.len() {
                    self.rotation_pos = self.rotation_pos + 1;
                    self.next_rotation = Some(now.saturating_add(self.rotation_speed));
                    self.update();
                    (true, Some(self.rotation_speed))
                } else {
                    self.rotation_pos = 0;
                    self.rotating = false;
                    self.next_rotation = Some(now.saturating_add(self.rotation_interval));
                    self.update();
                    (true, Some(self.rotation_interval))
                }
            },
            None => (false, None),
        }
    }

    /// One scheduler tick, reading the clock itself: the tick relation
    /// holds for the reading that was made.
    pub fn next(&mut self) -> (r: (bool, Option<u64>))
        requires
            old(self).wf(),
        ensures
            final(self).wf(),
            exists|now: u64| advance_rel(old(self)@, final(self)@, now, r.0, r.1),
    {
        let now = self.now_millis();
        self.next_at(now)
    }

    /// The current scroll offset, in characters into the content.
    pub fn offset(&self) -> (r: usize)
        ensures
            r as nat == self@.rotation_pos,
    {
        self.rotation_pos
    }

    /// The cached serialized form of the rendered record.
    pub fn to_display_string(&self) -> (r: String)
        ensures
            r@ == self@.cached_output,
    {
        self.cached_output.clone()
    }

    /// The cached rendered record, for host inspection.
    pub fn get_rendered(&self) -> (r: &Rendered)
        ensures
            r@ == self@.rendered,
    {
        &self.rendered
    }
}

} // verus!
