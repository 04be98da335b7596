//! Nixie display state and the diff-based render planner.
//!
//! A `NixieState` holds six digit values (10 is the blank sentinel) and
//! twelve comma booleans. `Display` double-buffers the last two states and,
//! given a new state, computes the minimal sequence of PWM driver chip
//! register operations that drives the tubes from the previous picture to the
//! new one. The operations are plain values; performing them on the two-wire
//! bus is left to the caller that owns the bus.

use vstd::prelude::*;

verus! {

/// The digit value that means "this position shows nothing".
pub const BLANK_DIGIT: u8 = 10;

/// One register operation on a PWM driver chip, addressed over the shared
/// two-wire bus. `on_counts`/`off_counts` are the chip's duty-cycle
/// registers: a channel driven with `on_counts == 0` and `off_counts == d`
/// is high for `d` of the 4096 counts of each PWM period.
#[derive(Clone, Copy, PartialEq, Eq, Structural, Debug)]
pub enum BusOp {
    /// Wake the chip at `addr` out of sleep mode.
    Enable { addr: u8 },
    /// Set the PWM prescale register of the chip at `addr`.
    SetPrescale { addr: u8, value: u8 },
    /// Set the duty-cycle registers of one channel of the chip at `addr`.
    SetChannel { addr: u8, channel: u8, on_counts: u16, off_counts: u16 },
    /// Set the duty-cycle registers of every channel of the chip at `addr`.
    SetAllChannels { addr: u8, on_counts: u16, off_counts: u16 },
}

/// What TimeFormatter hands to DisplayRenderer: a duty-cycle value and the
/// picture to show.
pub struct NixieDispCommand {
    pub brightness: usize,
    pub nixie_state: NixieState,
}

/// The picture on the six tubes: one value in `[0, 10]` per digit position
/// (10 blank) and one boolean per comma position.
#[derive(Clone, Copy)]
pub struct NixieState {
    digits: [u8; 6],
    commas: [bool; 12],
}

impl NixieState {
    /// The digit values, leftmost position first.
    pub closed spec fn digit_seq(&self) -> Seq<u8> {
        self.digits@
    }

    /// The comma booleans, position 0 first.
    pub closed spec fn comma_seq(&self) -> Seq<bool> {
        self.commas@
    }

    /// Every digit is a real digit or the blank sentinel.
    pub open spec fn wf(&self) -> bool {
        forall|i: int| 0 <= i < 6 ==> self.digit_seq()[i] <= BLANK_DIGIT
    }

    /// No position is blank: every digit value names a cathode.
    pub open spec fn all_visible(&self) -> bool {
        forall|i: int| 0 <= i < 6 ==> self.digit_seq()[i] < BLANK_DIGIT
    }

    pub fn new(digits: [u8; 6], commas: [bool; 12]) -> (r: Self)
        requires
            forall|i: int| 0 <= i < 6 ==> digits[i] <= BLANK_DIGIT,
        ensures
            r.digit_seq() == digits@,
            r.comma_seq() == commas@,
            r.wf(),
    {
        Self { digits, commas }
    }

    /// Two-digit decimal rendering of hour, minute and second.
    pub fn from_hmsc(hours: u32, mins: u32, seconds: u32, commas: [bool; 12]) -> (r: Self)
        requires
            hours < 100,
            mins < 100,
            seconds < 100,
        ensures
            r.digit_seq() == seq![
                (hours / 10) as u8,
                (hours % 10) as u8,
                (mins / 10) as u8,
                (mins % 10) as u8,
                (seconds / 10) as u8,
                (seconds % 10) as u8,
            ],
            r.comma_seq() == commas@,
            r.wf(),
            r.all_visible(),
    {
        let digits = [
            (hours / 10) as u8,
            (hours % 10) as u8,
            (mins / 10) as u8,
            (mins % 10) as u8,
            (seconds / 10) as u8,
            (seconds % 10) as u8,
        ];
        let r = Self { digits, commas };
        proof {
            assert(r.digit_seq() =~= seq![
                (hours / 10) as u8,
                (hours % 10) as u8,
                (mins / 10) as u8,
                (mins % 10) as u8,
                (seconds / 10) as u8,
                (seconds % 10) as u8,
            ]);
        }
        r
    }

    /// Every position blank, every comma off.
    pub fn blank() -> (r: Self)
        ensures
            forall|i: int| 0 <= i < 6 ==> r.digit_seq()[i] == BLANK_DIGIT,
            forall|i: int| 0 <= i < 12 ==> r.comma_seq()[i] == false,
            r.wf(),
    {
        Self { digits: [BLANK_DIGIT; 6], commas: [false; 12] }
    }

    /// The digit value at `i`.
    pub fn digit(&self, i: usize) -> (r: u8)
        requires
            i < 6,
        ensures
            r == self.digit_seq()[i as int],
    {
        self.digits[i]
    }

    /// The comma boolean at `i`.
    pub fn comma(&self, i: usize) -> (r: bool)
        requires
            i < 12,
        ensures
            r == self.comma_seq()[i as int],
    {
        self.commas[i]
    }
}

impl Default for NixieState {
    /// Every position showing 0, every comma off.
    fn default() -> (r: Self)
        ensures
            forall|i: int| 0 <= i < 6 ==> r.digit_seq()[i] == 0,
            forall|i: int| 0 <= i < 12 ==> r.comma_seq()[i] == false,
            r.wf(),
            r.all_visible(),
    {
        NixieState { digits: [0u8; 6], commas: [false; 12] }
    }
}

/// The register operations that one digit position contributes to a render:
/// none when the position is skipped (no forced redraw and the transition
/// touches a blank or keeps the digit), else off-then-on through the
/// position's cathode map, each chip woken before it is written.
pub open spec fn spec_digit_pos_ops(
    prev_d: u8,
    new_d: u8,
    pos: int,
    init: bool,
    brightness: u16,
    dmap: [[(u8, u8); 10]; 6],
) -> Seq<BusOp> {
    if !init && (prev_d == BLANK_DIGIT || new_d == BLANK_DIGIT || prev_d == new_d) {
        Seq::empty()
    } else {
        let (old_addr, old_channel) = dmap[pos][prev_d as int];
        let (new_addr, new_channel) = dmap[pos][new_d as int];
        seq![
            (BusOp::Enable { addr: old_addr }),
            (BusOp::SetChannel { addr: old_addr, channel: old_channel, on_counts: 0, off_counts: 0 }),
            (BusOp::Enable { addr: new_addr }),
            (BusOp::SetChannel {
                addr: new_addr,
                channel: new_channel,
                on_counts: 0,
                off_counts: brightness,
            }),
        ]
    }
}

/// The operations of digit positions `0 .. n`, in position order.
pub open spec fn spec_digit_ops_upto(
    prev: NixieState,
    cur: NixieState,
    init: bool,
    brightness: u16,
    dmap: [[(u8, u8); 10]; 6],
    n: int,
) -> Seq<BusOp>
    decreases n,
{
    if n <= 0 {
        Seq::empty()
    } else {
        spec_digit_ops_upto(prev, cur, init, brightness, dmap, n - 1) + spec_digit_pos_ops(
            prev.digit_seq()[n - 1],
            cur.digit_seq()[n - 1],
            n - 1,
            init,
            brightness,
            dmap,
        )
    }
}

/// The operations that one comma position contributes: none when its boolean
/// did not change, else the mapped channel driven to `brightness` or to 0.
pub open spec fn spec_comma_pos_ops(
    prev_c: bool,
    new_c: bool,
    pos: int,
    brightness: u16,
    cmap: [(u8, u8); 12],
) -> Seq<BusOp> {
    if new_c != prev_c {
        let (addr, channel) = cmap[pos];
        seq![
            (BusOp::Enable { addr }),
            (BusOp::SetChannel {
                addr,
                channel,
                on_counts: 0,
                off_counts: if new_c { brightness } else { 0 },
            }),
        ]
    } else {
        Seq::empty()
    }
}

/// The operations of comma positions `0 .. n`, in position order.
pub open spec fn spec_comma_ops_upto(
    prev: NixieState,
    cur: NixieState,
    brightness: u16,
    cmap: [(u8, u8); 12],
    n: int,
) -> Seq<BusOp>
    decreases n,
{
    if n <= 0 {
        Seq::empty()
    } else {
        spec_comma_ops_upto(prev, cur, brightness, cmap, n - 1) + spec_comma_pos_ops(
            prev.comma_seq()[n - 1],
            cur.comma_seq()[n - 1],
            n - 1,
            brightness,
            cmap,
        )
    }
}

/// Everything one render issues: the six digit positions, then the twelve
/// comma positions.
pub open spec fn spec_show_ops(
    prev: NixieState,
    cur: NixieState,
    init: bool,
    brightness: u16,
    dmap: [[(u8, u8); 10]; 6],
    cmap: [(u8, u8); 12],
) -> Seq<BusOp> {
    spec_digit_ops_upto(prev, cur, init, brightness, dmap, 6) + spec_comma_ops_upto(
        prev,
        cur,
        brightness,
        cmap,
        12,
    )
}

proof fn lemma_digit_ops_upto_same(s: NixieState, brightness: u16, dmap: [[(u8, u8); 10]; 6], n: int)
    ensures
        spec_digit_ops_upto(s, s, false, brightness, dmap, n) == Seq::<BusOp>::empty(),
    decreases n,
{
    if n <= 0 {
    } else {
        lemma_digit_ops_upto_same(s, brightness, dmap, n - 1);
        assert(spec_digit_ops_upto(s, s, false, brightness, dmap, n) =~= Seq::<BusOp>::empty());
    }
}

proof fn lemma_comma_ops_upto_same(s: NixieState, brightness: u16, cmap: [(u8, u8); 12], n: int)
    ensures
        spec_comma_ops_upto(s, s, brightness, cmap, n) == Seq::<BusOp>::empty(),
    decreases n,
{
    if n <= 0 {
    } else {
        lemma_comma_ops_upto_same(s, brightness, cmap, n - 1);
        assert(spec_comma_ops_upto(s, s, brightness, cmap, n) =~= Seq::<BusOp>::empty());
    }
}

/// Rendering a picture that is already on the tubes, without a forced
/// redraw, issues no bus operation at all: with `show`'s postcondition this
/// says that the second of two consecutive renders of one state returns an
/// empty plan.
pub proof fn lemma_render_same_state_silent(
    s: NixieState,
    brightness: u16,
    dmap: [[(u8, u8); 10]; 6],
    cmap: [(u8, u8); 12],
)
    ensures
        spec_show_ops(s, s, false, brightness, dmap, cmap) == Seq::<BusOp>::empty(),
{
    lemma_digit_ops_upto_same(s, brightness, dmap, 6);
    lemma_comma_ops_upto_same(s, brightness, cmap, 12);
    assert(spec_show_ops(s, s, false, brightness, dmap, cmap) =~= Seq::<BusOp>::empty());
}

/// A digit transition in which either side is the blank sentinel issues no
/// bus operation for that position, whatever the other value, as long as no
/// redraw is forced.
pub proof fn lemma_blank_transition_silent(
    prev_d: u8,
    new_d: u8,
    pos: int,
    brightness: u16,
    dmap: [[(u8, u8); 10]; 6],
)
    requires
        prev_d == BLANK_DIGIT || new_d == BLANK_DIGIT,
    ensures
        spec_digit_pos_ops(prev_d, new_d, pos, false, brightness, dmap) == Seq::<BusOp>::empty(),
{
}

/// A comma position issues bus operations exactly when its boolean differs
/// from the previous render; repeating a value is silent.
pub proof fn lemma_comma_write_iff_toggle(
    prev_c: bool,
    new_c: bool,
    pos: int,
    brightness: u16,
    cmap: [(u8, u8); 12],
)
    ensures
        spec_comma_pos_ops(prev_c, new_c, pos, brightness, cmap) == Seq::<BusOp>::empty()
            <==> new_c == prev_c,
{
    if new_c != prev_c {
        assert(spec_comma_pos_ops(prev_c, new_c, pos, brightness, cmap).len() == 2);
    }
}

/// Bus address of the first driver chip; the five chips answer at
/// `FIRST_CHIP_ADDR ..= LAST_CHIP_ADDR`.
pub const FIRST_CHIP_ADDR: u8 = 65;

/// Bus address of the last driver chip.
pub const LAST_CHIP_ADDR: u8 = 69;

/// The prescale value written once at startup; it fixes the base PWM
/// frequency of every chip.
pub const PWM_PRESCALE: u8 = 100;

/// The startup operations of chips `FIRST_CHIP_ADDR .. FIRST_CHIP_ADDR + n`:
/// each chip woken, then given the fixed prescale.
pub open spec fn spec_setup_ops_upto(n: int) -> Seq<BusOp>
    decreases n,
{
    if n <= 0 {
        Seq::empty()
    } else {
        spec_setup_ops_upto(n - 1) + seq![
            (BusOp::Enable { addr: (FIRST_CHIP_ADDR + n - 1) as u8 }),
            (BusOp::SetPrescale { addr: (FIRST_CHIP_ADDR + n - 1) as u8, value: PWM_PRESCALE }),
        ]
    }
}

/// The wipe operations of chips `FIRST_CHIP_ADDR .. FIRST_CHIP_ADDR + n`:
/// every channel of each chip driven off, then the chip woken.
pub open spec fn spec_wipe_ops_upto(n: int) -> Seq<BusOp>
    decreases n,
{
    if n <= 0 {
        Seq::empty()
    } else {
        spec_wipe_ops_upto(n - 1) + seq![
            (BusOp::SetAllChannels {
                addr: (FIRST_CHIP_ADDR + n - 1) as u8,
                on_counts: 0,
                off_counts: 0,
            }),
            (BusOp::Enable { addr: (FIRST_CHIP_ADDR + n - 1) as u8 }),
        ]
    }
}

/// The double-buffered renderer: the picture now on the tubes, the picture
/// before it, and the static wiring maps from digit position and value (and
/// from comma position) to a driver chip address and channel.
pub struct Display {
    current_state: NixieState,
    previous_state: NixieState,
    digitmap: [[(u8, u8); 10]; 6],
    commamap: [(u8, u8); 12],
}

impl Display {
    /// The picture currently on the tubes.
    pub closed spec fn cur(&self) -> NixieState {
        self.current_state
    }

    /// The picture the tubes showed before the last render.
    pub closed spec fn prev(&self) -> NixieState {
        self.previous_state
    }

    /// The digit wiring map.
    pub closed spec fn dmap(&self) -> [[(u8, u8); 10]; 6] {
        self.digitmap
    }

    /// The comma wiring map.
    pub closed spec fn cmap(&self) -> [(u8, u8); 12] {
        self.commamap
    }

    /// Both buffered pictures hold legal digit values.
    pub open spec fn wf(&self) -> bool {
        self.cur().wf() && self.prev().wf()
    }

    pub fn new(digitmap: [[(u8, u8); 10]; 6], commamap: [(u8, u8); 12]) -> (r: Self)
        ensures
            forall|i: int| 0 <= i < 6 ==> r.cur().digit_seq()[i] == 0,
            forall|i: int| 0 <= i < 12 ==> r.cur().comma_seq()[i] == false,
            forall|i: int| 0 <= i < 6 ==> r.prev().digit_seq()[i] == BLANK_DIGIT,
            forall|i: int| 0 <= i < 12 ==> r.prev().comma_seq()[i] == false,
            r.cur().all_visible(),
            r.dmap() == digitmap,
            r.cmap() == commamap,
            r.wf(),
    {
        Display {
            current_state: NixieState::default(),
            previous_state: NixieState::blank(),
            digitmap,
            commamap,
        }
    }

    /// The startup plan: enable each of the five chips and set its prescale.
    pub fn setup(&self) -> (ops: Vec<BusOp>)
        ensures
            ops@ == spec_setup_ops_upto(5),
    {
        let mut ops: Vec<BusOp> = Vec::new();
        let mut i: u8 = 0;
        while i < 5
            invariant
                i <= 5,
                ops@ == spec_setup_ops_upto(i as int),
            decreases 5 - i,
        {
            ops.push(BusOp::Enable { addr: FIRST_CHIP_ADDR + i });
            ops.push(BusOp::SetPrescale { addr: FIRST_CHIP_ADDR + i, value: PWM_PRESCALE });
            i = i + 1;
            proof {
                assert(ops@ =~= spec_setup_ops_upto(i as int));
            }
        }
        ops
    }

    /// The blanking plan: force every channel of every chip off so the tubes
    /// start dark.
    pub fn wipe(&self) -> (ops: Vec<BusOp>)
        ensures
            ops@ == spec_wipe_ops_upto(5),
    {
        let mut ops: Vec<BusOp> = Vec::new();
        let mut i: u8 = 0;
        while i < 5
            invariant
                i <= 5,
                ops@ == spec_wipe_ops_upto(i as int),
            decreases 5 - i,
        {
            ops.push(BusOp::SetAllChannels { addr: FIRST_CHIP_ADDR + i, on_counts: 0, off_counts: 0 });
            ops.push(BusOp::Enable { addr: FIRST_CHIP_ADDR + i });
            i = i + 1;
            proof {
                assert(ops@ =~= spec_wipe_ops_upto(i as int));
            }
        }
        ops
    }

    /// Render a new picture. Buffers rotate (the current picture becomes the
    /// previous one) and the returned operations, performed in order, drive
    /// the tubes to the new picture: a digit position issues traffic only on
    /// a forced redraw or a transition between two distinct visible digits,
    /// a comma position only when its boolean changed. A forced redraw
    /// writes every digit position through the wiring map, which has a
    /// channel only for the ten visible values — hence no blank digit may
    /// be on either side of a redraw.
    pub fn show(&mut self, state: NixieState, init: bool, brightness: u16) -> (ops: Vec<BusOp>)
        requires
            old(self).wf(),
            state.wf(),
            init ==> old(self).cur().all_visible() && state.all_visible(),
        ensures
            final(self).cur() == state,
            final(self).prev() == old(self).cur(),
            final(self).dmap() == old(self).dmap(),
            final(self).cmap() == old(self).cmap(),
            final(self).wf(),
            ops@ == spec_show_ops(
                old(self).cur(),
                state,
                init,
                brightness,
                old(self).dmap(),
                old(self).cmap(),
            ),
    {
        self.previous_state = self.current_state;
        self.current_state = state;
        let mut ops: Vec<BusOp> = Vec::new();
        let mut digit: usize = 0;
        while digit < 6
            invariant
                digit <= 6,
                self.prev() == old(self).cur(),
                self.cur() == state,
                self.dmap() == old(self).dmap(),
                self.cmap() == old(self).cmap(),
                old(self).wf(),
                state.wf(),
                init ==> old(self).cur().all_visible() && state.all_visible(),
                ops@ == spec_digit_ops_upto(
                    old(self).cur(),
                    state,
                    init,
                    brightness,
                    old(self).dmap(),
                    digit as int,
                ),
            decreases 6 - digit,
        {
            let digit_int = self.previous_state.digits[digit];
            let next_digit_int = self.current_state.digits[digit];
            let skip = !init && (digit_int == BLANK_DIGIT || next_digit_int == BLANK_DIGIT
                || digit_int == next_digit_int);
            if !skip {
                assert(digit_int < BLANK_DIGIT && next_digit_int < BLANK_DIGIT || init);
                let (old_addr, old_channel) = self.digitmap[digit][digit_int as usize];
                ops.push(BusOp::Enable { addr: old_addr });
                ops.push(BusOp::SetChannel {
                    addr: old_addr,
                    channel: old_channel,
                    on_counts: 0,
                    off_counts: 0,
                });
                let (new_addr, new_channel) = self.digitmap[digit][next_digit_int as usize];
                ops.push(BusOp::Enable { addr: new_addr });
                ops.push(BusOp::SetChannel {
                    addr: new_addr,
                    channel: new_channel,
                    on_counts: 0,
                    off_counts: brightness,
                });
            }
            digit = digit + 1;
            proof {
                assert(ops@ =~= spec_digit_ops_upto(
                    old(self).cur(),
                    state,
                    init,
                    brightness,
                    old(self).dmap(),
                    digit as int,
                ));
            }
        }
        let ghost digit_ops = ops@;
        let mut comma_no: usize = 0;
        while comma_no < 12
            invariant
                comma_no <= 12,
                self.prev() == old(self).cur(),
                self.cur() == state,
                self.cmap() == old(self).cmap(),
                ops@ == digit_ops + spec_comma_ops_upto(
                    old(self).cur(),
                    state,
                    brightness,
                    old(self).cmap(),
                    comma_no as int,
                ),
            decreases 12 - comma_no,
        {
            let on_off = self.current_state.commas[comma_no];
            let p_on_off = self.previous_state.commas[comma_no];
            if on_off ^ p_on_off {
                let (addr, channel) = self.commamap[comma_no];
                ops.push(BusOp::Enable { addr });
                if on_off {
                    ops.push(BusOp::SetChannel {
                        addr,
                        channel,
                        on_counts: 0,
                        off_counts: brightness,
                    });
                } else {
                    ops.push(BusOp::SetChannel { addr, channel, on_counts: 0, off_counts: 0 });
                }
            }
            comma_no = comma_no + 1;
            proof {
                assert(ops@ =~= digit_ops + spec_comma_ops_upto(
                    old(self).cur(),
                    state,
                    brightness,
                    old(self).cmap(),
                    comma_no as int,
                ));
            }
        }
        ops
    }
}

} // verus!
