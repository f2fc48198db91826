//! Mathematical model of the driver's register protocol.
//!
//! Every public driver method promises to append an exact sequence of bus
//! transactions and delays to the ghost histories of its collaborators; the
//! spec functions here are those sequences. The proof functions at the end
//! state the protocol's laws: a repeated mode selection is a no-op, the
//! page cache writes the page-select register exactly once per change, and
//! a configuration write saves and restores the operating mode.

use vstd::prelude::*;

use crate::bus::BusEvent;
use crate::reg_map::CHIP_ID;
use crate::reg_map::OPR_MODE;
use crate::reg_map::PAGE_ID;
use crate::reg_map::PWR_MODE;
use crate::reg_map::SYS_TRIGGER;
use crate::reg_map::SYS_TRIGGER_RESET;
use crate::types::mode_code;
use crate::types::page_code;
use crate::types::power_code;
use crate::types::OperationMode;
use crate::types::PowerMode;
use crate::types::RegisterPage;

verus! {

/// The transaction that writes `value` to register `reg` of the peripheral
/// at `addr`: the register address followed by the value, in one write.
pub open spec fn write_event(addr: u8, reg: u8, value: u8) -> BusEvent {
    BusEvent::Write { addr, data: seq![reg, value] }
}

/// The transaction that reads the single byte `value` back from register
/// `reg` of the peripheral at `addr`.
pub open spec fn read_event(addr: u8, reg: u8, value: u8) -> BusEvent {
    BusEvent::WriteRead { addr, reg: seq![reg], data: seq![value] }
}

/// Transactions of a page selection: nothing when the cached page already
/// equals the requested one, otherwise a single page-select write.
pub open spec fn page_select_events(addr: u8, cur: RegisterPage, req: RegisterPage) -> Seq<
    BusEvent,
> {
    if cur == req {
        Seq::empty()
    } else {
        seq![write_event(addr, PAGE_ID, page_code(req))]
    }
}

/// Settle delay after leaving `cur` for another mode: 7 ms out of `Config`,
/// 19 ms out of any operating mode.
pub open spec fn mode_settle_ms(cur: OperationMode) -> u32 {
    if cur == OperationMode::Config {
        7
    } else {
        19
    }
}

/// Transactions of a mode selection from cached mode `cur_mode` and cached
/// page `cur_page`: nothing when the mode is already selected, otherwise a
/// page-0 selection followed by the mode write.
pub open spec fn mode_switch_events(
    addr: u8,
    cur_mode: OperationMode,
    cur_page: RegisterPage,
    req: OperationMode,
) -> Seq<BusEvent> {
    if cur_mode == req {
        Seq::empty()
    } else {
        page_select_events(addr, cur_page, RegisterPage::Page0).push(
            write_event(addr, OPR_MODE, mode_code(req)),
        )
    }
}

/// Delays of a mode selection: nothing when the mode is already selected,
/// otherwise the settle delay for leaving `cur_mode`.
pub open spec fn mode_switch_delays(cur_mode: OperationMode, req: OperationMode) -> Seq<u32> {
    if cur_mode == req {
        Seq::empty()
    } else {
        seq![mode_settle_ms(cur_mode)]
    }
}

/// Transactions of a configuration write that the device only accepts in
/// `Config` mode: enter `Config`, write `value` to `reg`, restore the mode
/// the driver was in.
pub open spec fn config_write_events(
    addr: u8,
    cur_mode: OperationMode,
    cur_page: RegisterPage,
    reg: u8,
    value: u8,
) -> Seq<BusEvent> {
    mode_switch_events(addr, cur_mode, cur_page, OperationMode::Config) + seq![
        write_event(addr, reg, value),
    ] + mode_switch_events(addr, OperationMode::Config, RegisterPage::Page0, cur_mode)
}

/// Delays of a configuration write: the two mode switches' settle delays.
pub open spec fn config_write_delays(cur_mode: OperationMode) -> Seq<u32> {
    mode_switch_delays(cur_mode, OperationMode::Config) + mode_switch_delays(
        OperationMode::Config,
        cur_mode,
    )
}

/// Transactions of a successful bring-up from cached mode `cur_mode`: an
/// unconditional page-0 selection, the identity read (whose answer equals
/// the configured address on the success path), the soft-reset trigger, the
/// switch into `Config`, the power-mode write, and the trigger clear.
pub open spec fn init_events(addr: u8, cur_mode: OperationMode) -> Seq<BusEvent> {
    seq![
        write_event(addr, PAGE_ID, page_code(RegisterPage::Page0)),
        read_event(addr, CHIP_ID, addr),
        write_event(addr, SYS_TRIGGER, SYS_TRIGGER_RESET),
    ] + mode_switch_events(addr, cur_mode, RegisterPage::Page0, OperationMode::Config) + seq![
        write_event(addr, PWR_MODE, power_code(PowerMode::Normal)),
        write_event(addr, SYS_TRIGGER, 0),
    ]
}

/// Delays of a successful bring-up: the fixed 650 ms reset settle delay,
/// then the delay of the switch into `Config`.
pub open spec fn init_delays(cur_mode: OperationMode) -> Seq<u32> {
    seq![650u32] + mode_switch_delays(cur_mode, OperationMode::Config)
}

/// The byte the temperature register holds for the signed reading `t`:
/// two's complement in one byte.
pub open spec fn temp_byte(t: i8) -> u8 {
    if t >= 0 {
        t as u8
    } else {
        (t + 256) as u8
    }
}

/// How many of `events` are writes.
pub open spec fn count_writes(events: Seq<BusEvent>) -> nat
    decreases events.len(),
{
    if events.len() == 0 {
        0
    } else {
        count_writes(events.drop_last()) + (if events.last() is Write {
            1nat
        } else {
            0nat
        })
    }
}

/// How many of `events` are writes whose target register is `reg`.
pub open spec fn count_writes_to(events: Seq<BusEvent>, reg: u8) -> nat
    decreases events.len(),
{
    if events.len() == 0 {
        0
    } else {
        count_writes_to(events.drop_last(), reg) + (match events.last() {
            BusEvent::Write { data, .. } => if data.len() > 0 && data[0] == reg {
                1nat
            } else {
                0nat
            },
            _ => 0nat,
        })
    }
}

/// A sequence is a prefix of itself.
pub proof fn lemma_prefix_refl<T>(a: Seq<T>)
    ensures
        a.is_prefix_of(a),
{
    assert(a =~= a.subrange(0, a.len() as int));
}

/// A sequence is a prefix of itself extended by anything.
pub proof fn lemma_prefix_of_concat<T>(a: Seq<T>, b: Seq<T>)
    ensures
        a.is_prefix_of(a + b),
{
    assert(a =~= (a + b).subrange(0, a.len() as int));
}

/// Write counting distributes over concatenation.
pub proof fn lemma_count_writes_concat(a: Seq<BusEvent>, b: Seq<BusEvent>)
    ensures
        count_writes(a + b) == count_writes(a) + count_writes(b),
    decreases b.len(),
{
    if b.len() == 0 {
        assert(a + b =~= a);
    } else {
        assert((a + b).drop_last() =~= a + b.drop_last());
        lemma_count_writes_concat(a, b.drop_last());
    }
}

/// Appending one event raises the write count by one exactly when the
/// event is a write.
pub proof fn lemma_count_writes_push(a: Seq<BusEvent>, e: BusEvent)
    ensures
        count_writes(a.push(e)) == count_writes(a) + (if e is Write {
            1nat
        } else {
            0nat
        }),
{
    assert(a.push(e).drop_last() =~= a);
    assert(a.push(e).last() == e);
}

/// Per-register write counting distributes over concatenation.
pub proof fn lemma_count_writes_to_concat(a: Seq<BusEvent>, b: Seq<BusEvent>, reg: u8)
    ensures
        count_writes_to(a + b, reg) == count_writes_to(a, reg) + count_writes_to(b, reg),
    decreases b.len(),
{
    if b.len() == 0 {
        assert(a + b =~= a);
    } else {
        assert((a + b).drop_last() =~= a + b.drop_last());
        lemma_count_writes_to_concat(a, b.drop_last(), reg);
    }
}

/// Appending one event raises the per-register write count by one exactly
/// when the event is a write whose target register is `reg`.
pub proof fn lemma_count_writes_to_push(a: Seq<BusEvent>, e: BusEvent, reg: u8)
    ensures
        count_writes_to(a.push(e), reg) == count_writes_to(a, reg) + (match e {
            BusEvent::Write { data, .. } => if data.len() > 0 && data[0] == reg {
                1nat
            } else {
                0nat
            },
            _ => 0nat,
        }),
{
    assert(a.push(e).drop_last() =~= a);
    assert(a.push(e).last() == e);
}

/// Idempotence of mode selection: from page 0, selecting a different mode
/// costs exactly one register write and one delay, and selecting the mode
/// the driver is then in costs nothing at all.
pub proof fn lemma_mode_select_idempotent(addr: u8, cur: OperationMode, req: OperationMode)
    requires
        cur != req,
    ensures
        mode_switch_events(addr, cur, RegisterPage::Page0, req) == seq![
            write_event(addr, OPR_MODE, mode_code(req)),
        ],
        mode_switch_delays(cur, req) == seq![mode_settle_ms(cur)],
        mode_switch_events(addr, req, RegisterPage::Page0, req) == Seq::<BusEvent>::empty(),
        mode_switch_delays(req, req) == Seq::<u32>::empty(),
{
    assert(mode_switch_events(addr, cur, RegisterPage::Page0, req) =~= seq![
        write_event(addr, OPR_MODE, mode_code(req)),
    ]);
}

/// Page-cache law: over any sequence of page selections, the number of
/// page-select writes equals the number of selections whose requested page
/// differs from the page cached immediately before them.
///
/// `page_run_events` is the bus traffic of performing the selections of
/// `reqs` in order, starting from cached page `cur`; `page_change_count` is
/// the number of times a request differs from the cache it meets.
pub open spec fn page_run_events(addr: u8, cur: RegisterPage, reqs: Seq<RegisterPage>) -> Seq<
    BusEvent,
>
    decreases reqs.len(),
{
    if reqs.len() == 0 {
        Seq::empty()
    } else {
        page_select_events(addr, cur, reqs.first()) + page_run_events(
            addr,
            reqs.first(),
            reqs.drop_first(),
        )
    }
}

/// The number of page selections of `reqs` that differ from the cached page
/// they meet, starting from cached page `cur`.
pub open spec fn page_change_count(cur: RegisterPage, reqs: Seq<RegisterPage>) -> nat
    decreases reqs.len(),
{
    if reqs.len() == 0 {
        0
    } else {
        (if reqs.first() != cur {
            1nat
        } else {
            0nat
        }) + page_change_count(reqs.first(), reqs.drop_first())
    }
}

/// See [`page_run_events`]: the page cache never writes the page-select
/// register more often than the requested page changes.
pub proof fn lemma_page_cache_write_count(addr: u8, cur: RegisterPage, reqs: Seq<RegisterPage>)
    ensures
        count_writes(page_run_events(addr, cur, reqs)) == page_change_count(cur, reqs),
    decreases reqs.len(),
{
    if reqs.len() == 0 {
    } else {
        let head = page_select_events(addr, cur, reqs.first());
        let tail = page_run_events(addr, reqs.first(), reqs.drop_first());
        lemma_count_writes_concat(head, tail);
        if reqs.first() != cur {
            let w = write_event(addr, PAGE_ID, page_code(reqs.first()));
            assert(head =~= Seq::<BusEvent>::empty().push(w));
            lemma_count_writes_push(Seq::empty(), w);
        }
        lemma_page_cache_write_count(addr, reqs.first(), reqs.drop_first());
    }
}

/// Save/restore law: a configuration write from an operating mode touches
/// the operating-mode register exactly twice — into `Config`, then back —
/// and the configuration register exactly once, in between.
pub proof fn lemma_config_write_save_restore(
    addr: u8,
    cur_mode: OperationMode,
    cur_page: RegisterPage,
    reg: u8,
    value: u8,
)
    requires
        cur_mode != OperationMode::Config,
        reg != OPR_MODE,
        reg != PAGE_ID,
    ensures
        count_writes_to(config_write_events(addr, cur_mode, cur_page, reg, value), OPR_MODE) == 2,
        count_writes_to(config_write_events(addr, cur_mode, cur_page, reg, value), reg) == 1,
        cur_page == RegisterPage::Page0 ==> config_write_events(
            addr,
            cur_mode,
            cur_page,
            reg,
            value,
        ) == seq![
            write_event(addr, OPR_MODE, mode_code(OperationMode::Config)),
            write_event(addr, reg, value),
            write_event(addr, OPR_MODE, mode_code(cur_mode)),
        ],
{
    let w_cfg = write_event(addr, OPR_MODE, mode_code(OperationMode::Config));
    let w_val = write_event(addr, reg, value);
    let w_back = write_event(addr, OPR_MODE, mode_code(cur_mode));
    let sel = page_select_events(addr, cur_page, RegisterPage::Page0);
    let enter = mode_switch_events(addr, cur_mode, cur_page, OperationMode::Config);
    let mid = seq![w_val];
    let leave = mode_switch_events(addr, OperationMode::Config, RegisterPage::Page0, cur_mode);
    if cur_page != RegisterPage::Page0 {
        let w_page = write_event(addr, PAGE_ID, page_code(RegisterPage::Page0));
        assert(sel =~= Seq::<BusEvent>::empty().push(w_page));
        lemma_count_writes_to_push(Seq::empty(), w_page, OPR_MODE);
        lemma_count_writes_to_push(Seq::empty(), w_page, reg);
    }
    lemma_count_writes_to_push(sel, w_cfg, OPR_MODE);
    lemma_count_writes_to_push(sel, w_cfg, reg);
    assert(enter == sel.push(w_cfg));
    assert(mid =~= Seq::<BusEvent>::empty().push(w_val));
    assert(leave =~= Seq::<BusEvent>::empty().push(w_back));
    lemma_count_writes_to_push(Seq::empty(), w_val, OPR_MODE);
    lemma_count_writes_to_push(Seq::empty(), w_val, reg);
    lemma_count_writes_to_push(Seq::empty(), w_back, OPR_MODE);
    lemma_count_writes_to_push(Seq::empty(), w_back, reg);
    lemma_count_writes_to_concat(enter, mid, OPR_MODE);
    lemma_count_writes_to_concat(enter, mid, reg);
    lemma_count_writes_to_concat(enter + mid, leave, OPR_MODE);
    lemma_count_writes_to_concat(enter + mid, leave, reg);
    if cur_page == RegisterPage::Page0 {
        assert(config_write_events(addr, cur_mode, cur_page, reg, value) =~= seq![
            w_cfg,
            w_val,
            w_back,
        ]);
    }
}

} // verus!
