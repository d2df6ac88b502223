//! A run of consecutive input frames, and the edits that reshape one.
use vstd::prelude::*;

use crate::input::{
    TasCameraInput, TasControllerInput, TasDigitalInputMask, TasDigitalTransform, TasInputFrame,
    TasSpecialInputMask, TasSpecialTransform, TasZapperInput, frame_eq, neutral_frame,
};
use crate::limits::MAX_PROJECT_FRAMES;

verus! {

/// Why a pattern could not be built.
#[derive(Clone, Copy, Debug, PartialEq, Eq, Structural)]
pub enum TasPatternError {
    /// Patterns hold at least one frame and at most `MAX_PROJECT_FRAMES`.
    InvalidLength,
    /// The requested frames lie outside the branch.
    OutsideBranch,
    /// The pattern lengths differ.
    LengthMismatch,
    /// Autofire period or duty cycle is out of range.
    InvalidAutofire,
    /// The player index is not a controller port.
    InvalidPlayer,
}

impl TasPatternError {
    /// The sentence shown for the error.
    pub open spec fn message_text(&self) -> Seq<char> {
        match self {
            TasPatternError::InvalidLength => "input patterns hold between one frame and the project frame limit"@,
            TasPatternError::OutsideBranch => "the input pattern lies outside the branch"@,
            TasPatternError::LengthMismatch => "the input patterns differ in length"@,
            TasPatternError::InvalidAutofire => "autofire period must be between 1 and 60 frames, with no more ON frames than its period"@,
            TasPatternError::InvalidPlayer => "the player index is not a controller port"@,
        }
    }

    pub fn message(&self) -> (r: &'static str)
        ensures
            r@ == self.message_text(),
    {
        match self {
            TasPatternError::InvalidLength => "input patterns hold between one frame and the project frame limit",
            TasPatternError::OutsideBranch => "the input pattern lies outside the branch",
            TasPatternError::LengthMismatch => "the input patterns differ in length",
            TasPatternError::InvalidAutofire => "autofire period must be between 1 and 60 frames, with no more ON frames than its period",
            TasPatternError::InvalidPlayer => "the player index is not a controller port",
        }
    }
}

/// A maximal run of identical, non-neutral frames within a pattern.
#[derive(Clone, Copy, Debug, PartialEq, Eq)]
pub struct TasInputSpan {
    pub start: u64,
    pub length: u64,
    pub input: TasInputFrame,
}

/// Consecutive frames of input, starting at relative frame zero.
#[derive(Clone, Debug, PartialEq, Eq)]
pub struct TasInputPattern {
    pub frames: Vec<TasInputFrame>,
}

impl View for TasInputPattern {
    type V = Seq<TasInputFrame>;

    open spec fn view(&self) -> Seq<TasInputFrame> {
        self.frames@
    }
}

// ---------------------------------------------------------------------------
// Per-frame operations.

pub open spec fn clear_bits(c: TasControllerInput, m: TasControllerInput) -> TasControllerInput {
    TasControllerInput { buttons: c.buttons & !m.buttons, dpad: c.dpad & !m.dpad }
}

pub open spec fn invert_bits(c: TasControllerInput, m: TasControllerInput) -> TasControllerInput {
    TasControllerInput { buttons: c.buttons ^ m.buttons, dpad: c.dpad ^ m.dpad }
}

/// `c` outside the mask, `src` inside it.
pub open spec fn blend_bits(
    c: TasControllerInput,
    src: TasControllerInput,
    m: TasControllerInput,
) -> TasControllerInput {
    TasControllerInput {
        buttons: (c.buttons & !m.buttons) | (src.buttons & m.buttons),
        dpad: (c.dpad & !m.dpad) | (src.dpad & m.dpad),
    }
}

/// `c` with the masked bits pressed (`on`) or released.
pub open spec fn force_bits(c: TasControllerInput, m: TasControllerInput, on: bool) -> TasControllerInput {
    if on {
        TasControllerInput { buttons: c.buttons | m.buttons, dpad: c.dpad | m.dpad }
    } else {
        clear_bits(c, m)
    }
}

pub open spec fn spec_clear_frame(f: TasInputFrame, m: TasDigitalInputMask) -> TasInputFrame {
    TasInputFrame {
        players: [
            clear_bits(f.players[0], m.players[0]),
            clear_bits(f.players[1], m.players[1]),
            clear_bits(f.players[2], m.players[2]),
            clear_bits(f.players[3], m.players[3]),
            clear_bits(f.players[4], m.players[4]),
        ],
        ..f
    }
}

pub open spec fn spec_invert_frame(f: TasInputFrame, m: TasDigitalInputMask) -> TasInputFrame {
    TasInputFrame {
        players: [
            invert_bits(f.players[0], m.players[0]),
            invert_bits(f.players[1], m.players[1]),
            invert_bits(f.players[2], m.players[2]),
            invert_bits(f.players[3], m.players[3]),
            invert_bits(f.players[4], m.players[4]),
        ],
        ..f
    }
}

pub open spec fn spec_blend_frame(f: TasInputFrame, src: TasInputFrame, m: TasDigitalInputMask) -> TasInputFrame {
    TasInputFrame {
        players: [
            blend_bits(f.players[0], src.players[0], m.players[0]),
            blend_bits(f.players[1], src.players[1], m.players[1]),
            blend_bits(f.players[2], src.players[2], m.players[2]),
            blend_bits(f.players[3], src.players[3], m.players[3]),
            blend_bits(f.players[4], src.players[4], m.players[4]),
        ],
        ..f
    }
}

pub open spec fn spec_force_frame(f: TasInputFrame, m: TasDigitalInputMask, on: bool) -> TasInputFrame {
    TasInputFrame {
        players: [
            force_bits(f.players[0], m.players[0], on),
            force_bits(f.players[1], m.players[1], on),
            force_bits(f.players[2], m.players[2], on),
            force_bits(f.players[3], m.players[3], on),
            force_bits(f.players[4], m.players[4], on),
        ],
        ..f
    }
}

fn clear_controller(c: TasControllerInput, m: TasControllerInput) -> (r: TasControllerInput)
    ensures
        r == clear_bits(c, m),
{
    TasControllerInput { buttons: c.buttons & !m.buttons, dpad: c.dpad & !m.dpad }
}

fn invert_controller(c: TasControllerInput, m: TasControllerInput) -> (r: TasControllerInput)
    ensures
        r == invert_bits(c, m),
{
    TasControllerInput { buttons: c.buttons ^ m.buttons, dpad: c.dpad ^ m.dpad }
}

fn blend_controller(c: TasControllerInput, src: TasControllerInput, m: TasControllerInput) -> (r: TasControllerInput)
    ensures
        r == blend_bits(c, src, m),
{
    TasControllerInput {
        buttons: (c.buttons & !m.buttons) | (src.buttons & m.buttons),
        dpad: (c.dpad & !m.dpad) | (src.dpad & m.dpad),
    }
}

fn force_controller(c: TasControllerInput, m: TasControllerInput, on: bool) -> (r: TasControllerInput)
    ensures
        r == force_bits(c, m, on),
{
    if on {
        TasControllerInput { buttons: c.buttons | m.buttons, dpad: c.dpad | m.dpad }
    } else {
        clear_controller(c, m)
    }
}

/// `f` with the masked controls released.
pub fn clear_frame(f: TasInputFrame, m: &TasDigitalInputMask) -> (r: TasInputFrame)
    ensures
        r == spec_clear_frame(f, *m),
{
    let mut r = f;
    r.players[0] = clear_controller(f.players[0], m.players[0]);
    r.players[1] = clear_controller(f.players[1], m.players[1]);
    r.players[2] = clear_controller(f.players[2], m.players[2]);
    r.players[3] = clear_controller(f.players[3], m.players[3]);
    r.players[4] = clear_controller(f.players[4], m.players[4]);
    proof {
        assert(r.players =~= spec_clear_frame(f, *m).players);
    }
    r
}

/// `f` with the masked controls toggled.
pub fn invert_frame(f: TasInputFrame, m: &TasDigitalInputMask) -> (r: TasInputFrame)
    ensures
        r == spec_invert_frame(f, *m),
{
    let mut r = f;
    r.players[0] = invert_controller(f.players[0], m.players[0]);
    r.players[1] = invert_controller(f.players[1], m.players[1]);
    r.players[2] = invert_controller(f.players[2], m.players[2]);
    r.players[3] = invert_controller(f.players[3], m.players[3]);
    r.players[4] = invert_controller(f.players[4], m.players[4]);
    proof {
        assert(r.players =~= spec_invert_frame(f, *m).players);
    }
    r
}

/// `f` with the masked controls taken from `src`.
pub fn blend_frame(f: TasInputFrame, src: TasInputFrame, m: &TasDigitalInputMask) -> (r: TasInputFrame)
    ensures
        r == spec_blend_frame(f, src, *m),
{
    let mut r = f;
    r.players[0] = blend_controller(f.players[0], src.players[0], m.players[0]);
    r.players[1] = blend_controller(f.players[1], src.players[1], m.players[1]);
    r.players[2] = blend_controller(f.players[2], src.players[2], m.players[2]);
    r.players[3] = blend_controller(f.players[3], src.players[3], m.players[3]);
    r.players[4] = blend_controller(f.players[4], src.players[4], m.players[4]);
    proof {
        assert(r.players =~= spec_blend_frame(f, src, *m).players);
    }
    r
}

/// `f` with the masked controls pressed or released.
pub fn force_frame(f: TasInputFrame, m: &TasDigitalInputMask, on: bool) -> (r: TasInputFrame)
    ensures
        r == spec_force_frame(f, *m, on),
{
    let mut r = f;
    r.players[0] = force_controller(f.players[0], m.players[0], on);
    r.players[1] = force_controller(f.players[1], m.players[1], on);
    r.players[2] = force_controller(f.players[2], m.players[2], on);
    r.players[3] = force_controller(f.players[3], m.players[3], on);
    r.players[4] = force_controller(f.players[4], m.players[4], on);
    proof {
        assert(r.players =~= spec_force_frame(f, *m, on).players);
    }
    r
}

/// The special channels of `f` outside the mask, those of `src` inside it.
pub open spec fn spec_blend_special(f: TasInputFrame, src: TasInputFrame, m: TasSpecialInputMask) -> TasInputFrame {
    TasInputFrame {
        zapper: if m.zapper { src.zapper } else { f.zapper },
        tilt_x_bits: if m.tilt_x { src.tilt_x_bits } else { f.tilt_x_bits },
        tilt_y_bits: if m.tilt_y { src.tilt_y_bits } else { f.tilt_y_bits },
        camera: if m.camera { src.camera } else { f.camera },
        ..f
    }
}

/// `f` with the masked special channels reset to nothing.
pub open spec fn spec_clear_special(f: TasInputFrame, m: TasSpecialInputMask) -> TasInputFrame {
    spec_blend_special(f, neutral_frame(), m)
}

pub fn blend_special(f: TasInputFrame, src: TasInputFrame, m: TasSpecialInputMask) -> (r: TasInputFrame)
    ensures
        r == spec_blend_special(f, src, m),
{
    let mut r = f;
    if m.zapper {
        r.zapper = src.zapper;
    }
    if m.tilt_x {
        r.tilt_x_bits = src.tilt_x_bits;
    }
    if m.tilt_y {
        r.tilt_y_bits = src.tilt_y_bits;
    }
    if m.camera {
        r.camera = src.camera;
    }
    r
}

// ---------------------------------------------------------------------------
// Whole-pattern operations.

/// The digital transform of a run of frames.
pub open spec fn spec_digital_transform(
    frames: Seq<TasInputFrame>,
    m: TasDigitalInputMask,
    t: TasDigitalTransform,
) -> Seq<TasInputFrame> {
    Seq::new(
        frames.len(),
        |i: int|
            match t {
                TasDigitalTransform::Clear => spec_clear_frame(frames[i], m),
                TasDigitalTransform::Invert => spec_invert_frame(frames[i], m),
                TasDigitalTransform::Reverse => spec_blend_frame(
                    frames[i],
                    frames[frames.len() - 1 - i],
                    m,
                ),
            },
    )
}

/// The special-input transform of a run of frames.
pub open spec fn spec_special_transform(
    frames: Seq<TasInputFrame>,
    m: TasSpecialInputMask,
    t: TasSpecialTransform,
) -> Seq<TasInputFrame> {
    Seq::new(
        frames.len(),
        |i: int|
            match t {
                TasSpecialTransform::Clear => spec_clear_special(frames[i], m),
                TasSpecialTransform::Reverse => spec_blend_special(
                    frames[i],
                    frames[frames.len() - 1 - i],
                    m,
                ),
            },
    )
}

/// Autofire: from the first frame on, each `period` frames hold the masked
/// controls pressed for `on_frames` and released for the rest.
pub open spec fn spec_autofire(
    frames: Seq<TasInputFrame>,
    m: TasDigitalInputMask,
    period: u8,
    on_frames: u8,
) -> Seq<TasInputFrame> {
    Seq::new(frames.len(), |i: int| spec_force_frame(frames[i], m, i % (period as int) < on_frames))
}

/// `frames` repeated, cut to `length` frames.
pub open spec fn spec_tile(frames: Seq<TasInputFrame>, length: nat) -> Seq<TasInputFrame> {
    Seq::new(length, |i: int| frames[i % (frames.len() as int)])
}

/// The masked controls of `src` laid over `frames`.
pub open spec fn spec_overlay(
    frames: Seq<TasInputFrame>,
    src: Seq<TasInputFrame>,
    m: TasDigitalInputMask,
) -> Seq<TasInputFrame> {
    Seq::new(frames.len(), |i: int| spec_blend_frame(frames[i], src[i], m))
}

/// The sparse spans of a run: maximal runs of identical non-neutral frames.
pub open spec fn spans_of(frames: Seq<TasInputFrame>) -> Seq<TasInputSpan>
    decreases frames.len(),
{
    if frames.len() == 0 {
        Seq::empty()
    } else {
        let prefix = spans_of(frames.drop_last());
        let last = frames.last();
        let at = (frames.len() - 1) as int;
        if last == neutral_frame() {
            prefix
        } else if prefix.len() > 0 && prefix.last().start + prefix.last().length == at
            && prefix.last().input == last {
            prefix.update(
                prefix.len() - 1,
                TasInputSpan { length: (prefix.last().length + 1) as u64, ..prefix.last() },
            )
        } else {
            prefix.push(TasInputSpan { start: at as u64, length: 1, input: last })
        }
    }
}

proof fn lemma_spans_bounded(frames: Seq<TasInputFrame>)
    requires
        frames.len() <= u64::MAX,
    ensures
        forall|k: int|
            0 <= k < spans_of(frames).len() ==> (#[trigger] spans_of(frames)[k]).start
                + spans_of(frames)[k].length <= frames.len(),
    decreases frames.len(),
{
    if frames.len() > 0 {
        lemma_spans_bounded(frames.drop_last());
    }
}

impl TasInputPattern {
    /// `length` copies of `input`.
    pub fn constant(length: u64, input: TasInputFrame) -> (r: Result<Self, TasPatternError>)
        ensures
            match r {
                Ok(p) => 0 < length <= MAX_PROJECT_FRAMES && p@ == Seq::new(
                    length as nat,
                    |i: int| input,
                ),
                Err(e) => e == TasPatternError::InvalidLength && !(0 < length
                    <= MAX_PROJECT_FRAMES),
            },
    {
        if length == 0 || length > MAX_PROJECT_FRAMES {
            return Err(TasPatternError::InvalidLength);
        }
        let mut frames: Vec<TasInputFrame> = Vec::new();
        let mut i: u64 = 0;
        while i < length
            invariant
                i <= length,
                frames@ == Seq::new(i as nat, |k: int| input),
            decreases length - i,
        {
            frames.push(input);
            i += 1;
            proof {
                assert(frames@ =~= Seq::new(i as nat, |k: int| input));
            }
        }
        Ok(TasInputPattern { frames })
    }

    /// A pattern holding exactly `frames`.
    pub fn from_frames(frames: Vec<TasInputFrame>) -> (r: Self)
        ensures
            r@ == frames@,
    {
        TasInputPattern { frames }
    }

    /// Number of frames.
    pub fn length(&self) -> (r: u64)
        requires
            self@.len() <= u64::MAX,
        ensures
            r == self@.len(),
    {
        self.frames.len() as u64
    }

    /// A copy of the pattern.
    pub fn clone_pattern(&self) -> (r: Self)
        ensures
            r@ == self@,
    {
        TasInputPattern { frames: copy_frames(&self.frames) }
    }

    /// The maximal runs of identical non-neutral frames, in order.
    pub fn spans(&self) -> (r: Vec<TasInputSpan>)
        requires
            self@.len() <= u64::MAX,
        ensures
            r@ == spans_of(self@),
    {
        let mut out: Vec<TasInputSpan> = Vec::new();
        let mut i: usize = 0;
        while i < self.frames.len()
            invariant
                self@.len() <= u64::MAX,
                0 <= i <= self@.len(),
                out@ == spans_of(self@.take(i as int)),
            decreases self@.len() - i,
        {
            let frame = self.frames[i];
            let ghost prefix = self@.take(i as int);
            proof {
                assert(self@.take(i + 1).drop_last() =~= prefix);
                assert(self@.take(i + 1).last() == frame);
                lemma_spans_bounded(prefix);
            }
            if !frame.is_neutral() {
                let n = out.len();
                let extend = n > 0 && out[n - 1].start + out[n - 1].length == i as u64
                    && frame_eq(&out[n - 1].input, &frame);
                if extend {
                    let last = out[n - 1];
                    out.set(n - 1, TasInputSpan { length: last.length + 1, ..last });
                } else {
                    out.push(TasInputSpan { start: i as u64, length: 1, input: frame });
                }
            }
            i += 1;
        }
        proof {
            assert(self@.take(self@.len() as int) =~= self@);
        }
        out
    }

    /// Whether two patterns hold the same frames.
    pub fn same_as(&self, other: &Self) -> (r: bool)
        ensures
            r == (self@ == other@),
    {
        frames_eq(&self.frames, &other.frames)
    }

    /// The pattern with a digital transform applied to the masked controls.
    pub fn with_digital_transform(&self, mask: TasDigitalInputMask, transform: TasDigitalTransform) -> (r: Self)
        ensures
            r@ == spec_digital_transform(self@, mask, transform),
    {
        let n = self.frames.len();
        let mut frames: Vec<TasInputFrame> = Vec::new();
        let mut i: usize = 0;
        while i < n
            invariant
                n == self@.len(),
                0 <= i <= n,
                frames@ == spec_digital_transform(self@, mask, transform).take(i as int),
            decreases n - i,
        {
            let f = self.frames[i];
            let g = match transform {
                TasDigitalTransform::Clear => clear_frame(f, &mask),
                TasDigitalTransform::Invert => invert_frame(f, &mask),
                TasDigitalTransform::Reverse => blend_frame(f, self.frames[n - 1 - i], &mask),
            };
            frames.push(g);
            proof {
                assert(frames@ =~= spec_digital_transform(self@, mask, transform).take(i + 1));
            }
            i += 1;
        }
        proof {
            assert(frames@ =~= spec_digital_transform(self@, mask, transform));
        }
        TasInputPattern { frames }
    }

    /// The pattern with a special-input transform applied to the masked channels.
    pub fn with_special_transform(&self, mask: TasSpecialInputMask, transform: TasSpecialTransform) -> (r: Self)
        ensures
            r@ == spec_special_transform(self@, mask, transform),
    {
        let n = self.frames.len();
        let neutral = TasInputFrame::neutral();
        let mut frames: Vec<TasInputFrame> = Vec::new();
        let mut i: usize = 0;
        while i < n
            invariant
                n == self@.len(),
                0 <= i <= n,
                neutral == neutral_frame(),
                frames@ == spec_special_transform(self@, mask, transform).take(i as int),
            decreases n - i,
        {
            let f = self.frames[i];
            let g = match transform {
                TasSpecialTransform::Clear => blend_special(f, neutral, mask),
                TasSpecialTransform::Reverse => blend_special(f, self.frames[n - 1 - i], mask),
            };
            frames.push(g);
            proof {
                assert(frames@ =~= spec_special_transform(self@, mask, transform).take(i + 1));
            }
            i += 1;
        }
        proof {
            assert(frames@ =~= spec_special_transform(self@, mask, transform));
        }
        TasInputPattern { frames }
    }

    /// The pattern with digital autofire on one player's masked controls.
    pub fn with_digital_autofire(
        &self,
        player: usize,
        buttons_mask: u8,
        dpad_mask: u8,
        period: u8,
        on_frames: u8,
    ) -> (r: Result<Self, TasPatternError>)
        ensures
            match r {
                Ok(p) => {
                    &&& player < 5
                    &&& 1 <= period <= 60
                    &&& on_frames <= period
                    &&& p@ == spec_autofire(self@, player_mask(player, buttons_mask, dpad_mask), period, on_frames)
                },
                Err(e) => (e == TasPatternError::InvalidPlayer && player >= 5) || (e
                    == TasPatternError::InvalidAutofire && player < 5 && !(1 <= period <= 60
                    && on_frames <= period)),
            },
    {
        if player >= 5 {
            return Err(TasPatternError::InvalidPlayer);
        }
        if period < 1 || period > 60 || on_frames > period {
            return Err(TasPatternError::InvalidAutofire);
        }
        let mask = make_player_mask(player, buttons_mask, dpad_mask);
        let n = self.frames.len();
        let mut frames: Vec<TasInputFrame> = Vec::new();
        let mut i: usize = 0;
        while i < n
            invariant
                n == self@.len(),
                0 <= i <= n,
                1 <= period,
                mask == player_mask(player, buttons_mask, dpad_mask),
                frames@ == spec_autofire(self@, mask, period, on_frames).take(i as int),
            decreases n - i,
        {
            let on = ((i % (period as usize)) as u8) < on_frames;
            frames.push(force_frame(self.frames[i], &mask, on));
            proof {
                assert(frames@ =~= spec_autofire(self@, mask, period, on_frames).take(i + 1));
            }
            i += 1;
        }
        proof {
            assert(frames@ =~= spec_autofire(self@, mask, period, on_frames));
        }
        Ok(TasInputPattern { frames })
    }

    /// The pattern with the masked controls of `source` laid over it.
    pub fn with_digital_overlay(&self, source: &Self, mask: TasDigitalInputMask) -> (r: Result<Self, TasPatternError>)
        ensures
            match r {
                Ok(p) => self@.len() == source@.len() && p@ == spec_overlay(self@, source@, mask),
                Err(e) => e == TasPatternError::LengthMismatch && self@.len() != source@.len(),
            },
    {
        if self.frames.len() != source.frames.len() {
            return Err(TasPatternError::LengthMismatch);
        }
        let n = self.frames.len();
        let mut frames: Vec<TasInputFrame> = Vec::new();
        let mut i: usize = 0;
        while i < n
            invariant
                n == self@.len(),
                n == source@.len(),
                0 <= i <= n,
                frames@ == spec_overlay(self@, source@, mask).take(i as int),
            decreases n - i,
        {
            frames.push(blend_frame(self.frames[i], source.frames[i], &mask));
            proof {
                assert(frames@ =~= spec_overlay(self@, source@, mask).take(i + 1));
            }
            i += 1;
        }
        proof {
            assert(frames@ =~= spec_overlay(self@, source@, mask));
        }
        Ok(TasInputPattern { frames })
    }

    /// The pattern repeated and cut to `length` frames.
    pub fn tile_to_length(&self, length: u64) -> (r: Result<Self, TasPatternError>)
        ensures
            match r {
                Ok(p) => self@.len() > 0 && 0 < length <= MAX_PROJECT_FRAMES && p@ == spec_tile(
                    self@,
                    length as nat,
                ),
                Err(e) => e == TasPatternError::InvalidLength && !(self@.len() > 0 && 0 < length
                    <= MAX_PROJECT_FRAMES),
            },
    {
        let n = self.frames.len();
        if n == 0 || length == 0 || length > MAX_PROJECT_FRAMES {
            return Err(TasPatternError::InvalidLength);
        }
        let mut frames: Vec<TasInputFrame> = Vec::new();
        let mut i: u64 = 0;
        let mut j: usize = 0;
        while i < length
            invariant
                n == self@.len(),
                n > 0,
                i <= length,
                j < n,
                j == (i as int) % (n as int),
                frames@ == spec_tile(self@, length as nat).take(i as int),
            decreases length - i,
        {
            frames.push(self.frames[j]);
            proof {
                assert(frames@ =~= spec_tile(self@, length as nat).take(i + 1));
                assert((i + 1) % (n as int) == if j + 1 == n { 0 } else { j + 1 }) by (nonlinear_arith)
                    requires j == (i as int) % (n as int), n > 0, j < n;
            }
            j = if j + 1 == n {
                0
            } else {
                j + 1
            };
            i += 1;
        }
        proof {
            assert(frames@ =~= spec_tile(self@, length as nat));
        }
        Ok(TasInputPattern { frames })
    }
}

/// The mask holding `buttons` and `dpad` for one player and nothing else.
pub open spec fn player_mask(player: usize, buttons: u8, dpad: u8) -> TasDigitalInputMask {
    let z = TasControllerInput { buttons: 0, dpad: 0 };
    let c = TasControllerInput { buttons, dpad };
    TasDigitalInputMask {
        players: [
            if player == 0 { c } else { z },
            if player == 1 { c } else { z },
            if player == 2 { c } else { z },
            if player == 3 { c } else { z },
            if player == 4 { c } else { z },
        ],
    }
}

pub fn make_player_mask(player: usize, buttons: u8, dpad: u8) -> (r: TasDigitalInputMask)
    ensures
        r == player_mask(player, buttons, dpad),
{
    let z = TasControllerInput { buttons: 0, dpad: 0 };
    let c = TasControllerInput { buttons, dpad };
    let r = TasDigitalInputMask {
        players: [
            if player == 0 { c } else { z },
            if player == 1 { c } else { z },
            if player == 2 { c } else { z },
            if player == 3 { c } else { z },
            if player == 4 { c } else { z },
        ],
    };
    proof {
        assert(r.players =~= player_mask(player, buttons, dpad).players);
    }
    r
}

/// A copy of a frame list.
pub fn copy_frames(frames: &Vec<TasInputFrame>) -> (r: Vec<TasInputFrame>)
    ensures
        r@ == frames@,
{
    let mut out: Vec<TasInputFrame> = Vec::new();
    let mut i: usize = 0;
    while i < frames.len()
        invariant
            0 <= i <= frames@.len(),
            out@ == frames@.take(i as int),
        decreases frames@.len() - i,
    {
        out.push(frames[i]);
        proof {
            assert(out@ =~= frames@.take(i + 1));
        }
        i += 1;
    }
    proof {
        assert(frames@.take(frames@.len() as int) =~= frames@);
    }
    out
}

/// Whether two frame lists are equal.
pub fn frames_eq(a: &Vec<TasInputFrame>, b: &Vec<TasInputFrame>) -> (r: bool)
    ensures
        r == (a@ == b@),
{
    if a.len() != b.len() {
        return false;
    }
    let mut i: usize = 0;
    while i < a.len()
        invariant
            a@.len() == b@.len(),
            0 <= i <= a@.len(),
            forall|k: int| 0 <= k < i ==> a@[k] == b@[k],
        decreases a@.len() - i,
    {
        if !frame_eq(&a[i], &b[i]) {
            return false;
        }
        i += 1;
    }
    proof {
        assert(a@ =~= b@);
    }
    true
}

// ---------------------------------------------------------------------------
// Laws.

proof fn bits_xor_twice(x: u8, y: u8)
    ensures
        (x ^ y) ^ y == x,
{
    assert((x ^ y) ^ y == x) by (bit_vector);
}

proof fn bits_clear_twice(x: u8, y: u8)
    ensures
        (x & !y) & !y == x & !y,
{
    assert((x & !y) & !y == x & !y) by (bit_vector);
}

proof fn bits_xor_keeps_outside(x: u8, y: u8)
    ensures
        (x ^ y) & !y == x & !y,
{
    assert((x ^ y) & !y == x & !y) by (bit_vector);
}

proof fn bits_blend_keeps_outside(a: u8, b: u8, k: u8)
    ensures
        ((a & !k) | (b & k)) & !k == a & !k,
{
    assert(((a & !k) | (b & k)) & !k == a & !k) by (bit_vector);
}

proof fn bits_force(x: u8, y: u8)
    ensures
        (x | y) & y == y,
        (x | y) & !y == x & !y,
        (x & !y) & y == 0,
        (x & !y) & !y == x & !y,
{
    assert((x | y) & y == y) by (bit_vector);
    assert((x | y) & !y == x & !y) by (bit_vector);
    assert((x & !y) & y == 0) by (bit_vector);
    assert((x & !y) & !y == x & !y) by (bit_vector);
}

proof fn bits_empty_mask(x: u8)
    ensures
        x | 0u8 == x,
        x & !0u8 == x,
{
    assert(x | 0u8 == x) by (bit_vector);
    assert(x & !0u8 == x) by (bit_vector);
}

proof fn bits_blend_twice(a: u8, b: u8, k: u8)
    ensures
        ((a & !k) | (b & k)) & !k | (((b & !k) | (a & k)) & k) == a,
{
    assert(((a & !k) | (b & k)) & !k | (((b & !k) | (a & k)) & k) == a) by (bit_vector);
}

/// Inverting the same controls twice restores the frames.
pub proof fn law_invert_twice(frames: Seq<TasInputFrame>, m: TasDigitalInputMask)
    ensures
        spec_digital_transform(
            spec_digital_transform(frames, m, TasDigitalTransform::Invert),
            m,
            TasDigitalTransform::Invert,
        ) == frames,
{
    let once = spec_digital_transform(frames, m, TasDigitalTransform::Invert);
    let twice = spec_digital_transform(once, m, TasDigitalTransform::Invert);
    assert forall|i: int| 0 <= i < frames.len() implies twice[i] == frames[i] by {
        let f = frames[i];
        assert forall|p: int| 0 <= p < 5 implies invert_bits(invert_bits(f.players[p], m.players[p]), m.players[p]) == f.players[p] by {
            let c = f.players[p];
            let k = m.players[p];
            bits_xor_twice(c.buttons, k.buttons);
            bits_xor_twice(c.dpad, k.dpad);
        }
        assert(twice[i].players =~= f.players);
    }
    assert(twice =~= frames);
}

/// Reversing the same controls twice restores the frames.
pub proof fn law_reverse_twice(frames: Seq<TasInputFrame>, m: TasDigitalInputMask)
    ensures
        spec_digital_transform(
            spec_digital_transform(frames, m, TasDigitalTransform::Reverse),
            m,
            TasDigitalTransform::Reverse,
        ) == frames,
{
    let n = frames.len();
    let once = spec_digital_transform(frames, m, TasDigitalTransform::Reverse);
    let twice = spec_digital_transform(once, m, TasDigitalTransform::Reverse);
    assert forall|i: int| 0 <= i < n implies twice[i] == frames[i] by {
        let f = frames[i];
        let g = frames[n - 1 - i];
        assert forall|p: int| 0 <= p < 5 implies blend_bits(blend_bits(f.players[p], g.players[p], m.players[p]), blend_bits(g.players[p], f.players[p], m.players[p]), m.players[p]) == f.players[p] by {
            let a = f.players[p];
            let b = g.players[p];
            let k = m.players[p];
            bits_blend_twice(a.buttons, b.buttons, k.buttons);
            bits_blend_twice(a.dpad, b.dpad, k.dpad);
        }
        assert(twice[i].players =~= f.players);
    }
    assert(twice =~= frames);
}

/// Clearing the same controls twice changes nothing the second time.
pub proof fn law_clear_idempotent(frames: Seq<TasInputFrame>, m: TasDigitalInputMask)
    ensures
        spec_digital_transform(
            spec_digital_transform(frames, m, TasDigitalTransform::Clear),
            m,
            TasDigitalTransform::Clear,
        ) == spec_digital_transform(frames, m, TasDigitalTransform::Clear),
{
    let once = spec_digital_transform(frames, m, TasDigitalTransform::Clear);
    let twice = spec_digital_transform(once, m, TasDigitalTransform::Clear);
    assert forall|i: int| 0 <= i < frames.len() implies twice[i] == once[i] by {
        let f = frames[i];
        assert forall|p: int| 0 <= p < 5 implies clear_bits(clear_bits(f.players[p], m.players[p]), m.players[p]) == clear_bits(f.players[p], m.players[p]) by {
            let c = f.players[p];
            let k = m.players[p];
            bits_clear_twice(c.buttons, k.buttons);
            bits_clear_twice(c.dpad, k.dpad);
        }
        assert(twice[i].players =~= once[i].players);
    }
    assert(twice =~= once);
}

/// Every digital transform leaves the controls outside the mask, and all
/// special input, exactly as they were.
pub proof fn law_transform_keeps_unmasked(
    frames: Seq<TasInputFrame>,
    m: TasDigitalInputMask,
    t: TasDigitalTransform,
    i: int,
    p: int,
)
    requires
        0 <= i < frames.len(),
        0 <= p < 5,
    ensures
        spec_digital_transform(frames, m, t)[i].players[p].buttons & !m.players[p].buttons
            == frames[i].players[p].buttons & !m.players[p].buttons,
        spec_digital_transform(frames, m, t)[i].players[p].dpad & !m.players[p].dpad
            == frames[i].players[p].dpad & !m.players[p].dpad,
        spec_digital_transform(frames, m, t)[i].coleco == frames[i].coleco,
        spec_digital_transform(frames, m, t)[i].zapper == frames[i].zapper,
        spec_digital_transform(frames, m, t)[i].tilt_x_bits == frames[i].tilt_x_bits,
        spec_digital_transform(frames, m, t)[i].tilt_y_bits == frames[i].tilt_y_bits,
        spec_digital_transform(frames, m, t)[i].camera == frames[i].camera,
{
    let a = frames[i].players[p];
    let b = frames[frames.len() - 1 - i].players[p];
    let k = m.players[p];
    bits_clear_twice(a.buttons, k.buttons);
    bits_clear_twice(a.dpad, k.dpad);
    bits_xor_keeps_outside(a.buttons, k.buttons);
    bits_xor_keeps_outside(a.dpad, k.dpad);
    bits_blend_keeps_outside(a.buttons, b.buttons, k.buttons);
    bits_blend_keeps_outside(a.dpad, b.dpad, k.dpad);
}

/// Autofire over a run of frames: counting from the first frame of the run,
/// every cycle of `period` frames starts with `on_frames` frames on which the
/// chosen controls are held, and they are released on the rest of the cycle.
/// The other controls of that player, the other players and all special input
/// are kept.
pub proof fn law_autofire_cycle(
    frames: Seq<TasInputFrame>,
    player: usize,
    buttons: u8,
    dpad: u8,
    period: u8,
    on_frames: u8,
    i: int,
)
    requires
        player < 5,
        1 <= period <= 60,
        on_frames <= period,
        0 <= i < frames.len(),
    ensures
        spec_autofire(frames, player_mask(player, buttons, dpad), period, on_frames).len() == frames.len(),
        spec_autofire(frames, player_mask(player, buttons, dpad), period, on_frames)[i].players[player as int].buttons
            & buttons == (if i % (period as int) < on_frames { buttons } else { 0u8 }),
        spec_autofire(frames, player_mask(player, buttons, dpad), period, on_frames)[i].players[player as int].dpad
            & dpad == (if i % (period as int) < on_frames { dpad } else { 0u8 }),
        spec_autofire(frames, player_mask(player, buttons, dpad), period, on_frames)[i].players[player as int].buttons
            & !buttons == frames[i].players[player as int].buttons & !buttons,
        spec_autofire(frames, player_mask(player, buttons, dpad), period, on_frames)[i].players[player as int].dpad
            & !dpad == frames[i].players[player as int].dpad & !dpad,
        forall|p: int|
            0 <= p < 5 && p != player ==> (#[trigger] spec_autofire(
                frames,
                player_mask(player, buttons, dpad),
                period,
                on_frames,
            )[i].players[p]) == frames[i].players[p],
        spec_autofire(frames, player_mask(player, buttons, dpad), period, on_frames)[i].coleco == frames[i].coleco,
        spec_autofire(frames, player_mask(player, buttons, dpad), period, on_frames)[i].zapper == frames[i].zapper,
        spec_autofire(frames, player_mask(player, buttons, dpad), period, on_frames)[i].tilt_x_bits
            == frames[i].tilt_x_bits,
        spec_autofire(frames, player_mask(player, buttons, dpad), period, on_frames)[i].tilt_y_bits
            == frames[i].tilt_y_bits,
        spec_autofire(frames, player_mask(player, buttons, dpad), period, on_frames)[i].camera == frames[i].camera,
{
    let m = player_mask(player, buttons, dpad);
    let c = frames[i].players[player as int];
    bits_force(c.buttons, buttons);
    bits_force(c.dpad, dpad);
    assert forall|p: int| 0 <= p < 5 && p != player implies (#[trigger] spec_autofire(
        frames,
        m,
        period,
        on_frames,
    )[i].players[p]) == frames[i].players[p] by {
        let d = frames[i].players[p];
        bits_empty_mask(d.buttons);
        bits_empty_mask(d.dpad);
    }
}

} // verus!
