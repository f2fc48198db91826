//! The device driver: a blocking, caller-driven state machine over a bus
//! transport and a delay source.
//!
//! The handle caches the register page, operating mode and temperature
//! source last written to the device, and skips a write only when the cache
//! already holds the requested value. Every method's contract states the
//! exact bus transactions and delays it appends to the ghost histories of
//! its collaborators, in terms of the sequences defined in
//! [`crate::protocol`].

use vstd::prelude::*;

use crate::bus::BusEvent;
use crate::bus::BusTransport;
use crate::bus::DelaySource;
use crate::protocol::config_write_delays;
use crate::protocol::config_write_events;
use crate::protocol::init_delays;
use crate::protocol::init_events;
use crate::protocol::lemma_prefix_of_concat;
use crate::protocol::lemma_prefix_refl;
use crate::protocol::mode_switch_delays;
use crate::protocol::mode_switch_events;
use crate::protocol::page_select_events;
use crate::protocol::read_event;
use crate::protocol::temp_byte;
use crate::protocol::write_event;
use crate::reg_map::CHIP_ID;
use crate::reg_map::DEFAULT_ADDR;
use crate::reg_map::ALTERNATE_ADDR;
use crate::reg_map::OPR_MODE;
use crate::reg_map::PAGE_ID;
use crate::reg_map::PWR_MODE;
use crate::reg_map::SYS_TRIGGER;
use crate::reg_map::SYS_TRIGGER_EXT_OSC;
use crate::reg_map::SYS_TRIGGER_RESET;
use crate::reg_map::TEMP;
use crate::reg_map::TEMP_SOURCE;
use crate::reg_map::UNIT_SEL;
use crate::types::page_code;
use crate::types::power_code;
use crate::types::source_code;
use crate::types::Error;
use crate::types::OperationMode;
use crate::types::PowerMode;
use crate::types::RegisterPage;
use crate::types::TempSource;
use crate::units::unit_byte;
use crate::units::Unit;

verus! {

/// Abstract state of a driver handle: the configured bus address and the
/// three cached register values. The caches always hold the value last
/// written to the device, or the power-on default before the first write.
pub struct DriverState {
    pub addr: u8,
    pub mode: OperationMode,
    pub page: RegisterPage,
    pub temp_source: TempSource,
}

/// Driver handle for the device. It owns its bus transport exclusively;
/// construct at most one handle per physical bus.
#[derive(Debug)]
pub struct Bno055<I> {
    i2c: I,
    i2c_addr: u8,
    operation_mode: OperationMode,
    page: RegisterPage,
    temp_source: TempSource,
}

impl<I> View for Bno055<I> {
    type V = DriverState;

    closed spec fn view(&self) -> DriverState {
        DriverState {
            addr: self.i2c_addr,
            mode: self.operation_mode,
            page: self.page,
            temp_source: self.temp_source,
        }
    }
}

impl<I> Bno055<I> {
    /// The owned bus transport, as a spec value.
    pub closed spec fn transport(&self) -> I {
        self.i2c
    }

    /// Borrow the underlying bus transport, for inspection.
    pub fn bus(&self) -> (r: &I)
        ensures
            *r == self.transport(),
    {
        &self.i2c
    }
}

impl<I, E> Bno055<I> where I: BusTransport<BusError = E> {
    /// Ghost history of the bus transactions this handle has performed
    /// (those of its transport).
    pub open spec fn events(&self) -> Seq<BusEvent> {
        self.transport().history()
    }

    /// A handle on the default bus address, with the caches at the
    /// device's power-on defaults. Performs no bus traffic.
    pub fn new(i2c: I) -> (r: Self)
        ensures
            r@.addr == DEFAULT_ADDR,
            r@.mode == OperationMode::Config,
            r@.page == RegisterPage::Page0,
            r@.temp_source == TempSource::Accelerometer,
            r.transport() == i2c,
    {
        Bno055 {
            i2c,
            i2c_addr: DEFAULT_ADDR,
            operation_mode: OperationMode::Config,
            page: RegisterPage::Page0,
            temp_source: TempSource::Accelerometer,
        }
    }

    /// The same handle, readdressed to the alternate bus address.
    /// Performs no bus traffic.
    pub fn with_alternate_addr(self) -> (r: Self)
        ensures
            r@.addr == ALTERNATE_ADDR,
            r@.mode == self@.mode,
            r@.page == self@.page,
            r@.temp_source == self@.temp_source,
            r.transport() == self.transport(),
    {
        let Bno055 { i2c, i2c_addr: _, operation_mode, page, temp_source } = self;
        Bno055 { i2c, i2c_addr: ALTERNATE_ADDR, operation_mode, page, temp_source }
    }

    /// Write `value` to register `reg` in one bus transaction.
    fn write_u8(&mut self, reg: u8, value: u8) -> (r: Result<(), Error<E>>)
        ensures
            final(self)@ == old(self)@,
            match r {
                Ok(()) => final(self).events() == old(self).events().push(
                    write_event(old(self)@.addr, reg, value),
                ),
                Err(e) => e is I2c && final(self).events() == old(self).events(),
            },
    {
        let bytes: [u8; 2] = [reg, value];
        match self.i2c.write(self.i2c_addr, bytes.as_slice()) {
            Ok(()) => {
                proof {
                    assert(bytes@ =~= seq![reg, value]);
                }
                Ok(())
            },
            Err(e) => Err(Error::I2c(e)),
        }
    }

    /// Read one byte back from register `reg` in one bus transaction.
    fn read_u8(&mut self, reg: u8) -> (r: Result<u8, Error<E>>)
        ensures
            final(self)@ == old(self)@,
            match r {
                Ok(b) => final(self).events() == old(self).events().push(
                    read_event(old(self)@.addr, reg, b),
                ),
                Err(e) => e is I2c && final(self).events() == old(self).events(),
            },
    {
        let regs: [u8; 1] = [reg];
        match self.i2c.write_read(self.i2c_addr, regs.as_slice(), 1) {
            Ok(data) => {
                let b = data[0];
                proof {
                    assert(regs@ =~= seq![reg]);
                    assert(data@ =~= seq![b]);
                }
                Ok(b)
            },
            Err(e) => Err(Error::I2c(e)),
        }
    }

    /// Select a register page. A no-op when the cached page already equals
    /// the requested one; otherwise one page-select write, with the cache
    /// updated only after the write succeeds.
    pub fn set_page(&mut self, page: RegisterPage) -> (r: Result<(), Error<E>>)
        ensures
            final(self)@.addr == old(self)@.addr,
            final(self)@.mode == old(self)@.mode,
            final(self)@.temp_source == old(self)@.temp_source,
            match r {
                Ok(()) => final(self)@.page == page && final(self).events() == old(self).events()
                    + page_select_events(old(self)@.addr, old(self)@.page, page),
                Err(e) => e is I2c && old(self)@.page != page && final(self)@.page
                    == old(self)@.page && final(self).events() == old(self).events(),
            },
    {
        if self.page == page {
            proof {
                assert(self.events() + page_select_events(self@.addr, self@.page, page)
                    =~= self.events());
            }
            Ok(())
        } else {
            match self.write_u8(PAGE_ID, page.code()) {
                Ok(()) => {
                    self.page = page;
                    proof {
                        assert(old(self).events().push(
                            write_event(old(self)@.addr, PAGE_ID, page_code(page)),
                        ) =~= old(self).events() + page_select_events(
                            old(self)@.addr,
                            old(self)@.page,
                            page,
                        ));
                    }
                    Ok(())
                },
                Err(e) => Err(e),
            }
        }
    }

    /// Select an operating mode. A no-op when the cached mode already
    /// equals the requested one; otherwise page 0 is selected, the mode
    /// code is written, and the settle delay for leaving the previous mode
    /// is waited out — 7 ms out of `Config`, 19 ms out of any operating
    /// mode. The cached mode is updated only after the write succeeds.
    pub fn set_mode<D: DelaySource>(&mut self, mode: OperationMode, delay: &mut D) -> (r: Result<
        (),
        Error<E>,
    >)
        ensures
            final(self)@.addr == old(self)@.addr,
            final(self)@.temp_source == old(self)@.temp_source,
            match r {
                Ok(()) => {
                    &&& final(self)@.mode == mode
                    &&& final(self)@.page == (if old(self)@.mode == mode {
                        old(self)@.page
                    } else {
                        RegisterPage::Page0
                    })
                    &&& final(self).events() == old(self).events() + mode_switch_events(
                        old(self)@.addr,
                        old(self)@.mode,
                        old(self)@.page,
                        mode,
                    )
                    &&& final(delay).delays() == old(delay).delays() + mode_switch_delays(
                        old(self)@.mode,
                        mode,
                    )
                },
                Err(e) => {
                    &&& e is I2c
                    &&& old(self)@.mode != mode
                    &&& final(self)@.mode == old(self)@.mode
                    &&& final(delay).delays() == old(delay).delays()
                    &&& ((final(self)@.page == old(self)@.page && final(self).events()
                        == old(self).events()) || (final(self)@.page == RegisterPage::Page0
                        && final(self).events() == old(self).events() + page_select_events(
                        old(self)@.addr,
                        old(self)@.page,
                        RegisterPage::Page0,
                    )))
                },
            },
    {
        if self.operation_mode == mode {
            proof {
                assert(self.events() + mode_switch_events(
                    self@.addr,
                    self@.mode,
                    self@.page,
                    mode,
                ) =~= self.events());
                assert(delay.delays() + mode_switch_delays(self@.mode, mode) =~= delay.delays());
            }
            return Ok(());
        }
        let prev = self.operation_mode;
        match self.set_page(RegisterPage::Page0) {
            Ok(()) => {},
            Err(e) => {
                return Err(e);
            },
        }
        match self.write_u8(OPR_MODE, mode.code()) {
            Ok(()) => {},
            Err(e) => {
                return Err(e);
            },
        }
        let ms: u32 = if prev == OperationMode::Config {
            7
        } else {
            19
        };
        delay.delay_ms(ms);
        self.operation_mode = mode;
        proof {
            assert((old(self).events() + page_select_events(
                old(self)@.addr,
                old(self)@.page,
                RegisterPage::Page0,
            )).push(write_event(old(self)@.addr, OPR_MODE, crate::types::mode_code(mode)))
                =~= old(self).events() + mode_switch_events(
                old(self)@.addr,
                old(self)@.mode,
                old(self)@.page,
                mode,
            ));
            assert(old(delay).delays().push(ms) =~= old(delay).delays() + mode_switch_delays(
                old(self)@.mode,
                mode,
            ));
        }
        Ok(())
    }

    /// Bring the device from power-on into a known configuration, in this
    /// exact order: select page 0 unconditionally (the page cache is not
    /// trusted yet), read and check the chip identity, soft-reset and wait
    /// the mandatory 650 ms, enter `Config` mode, write `Normal` power
    /// mode, and clear the system-trigger register.
    ///
    /// The identity byte is checked against the configured bus address;
    /// `InvalidChipId` carries the byte actually read. The first bus
    /// failure aborts the sequence; there are no retries.
    pub fn init<D: DelaySource>(&mut self, delay: &mut D) -> (r: Result<(), Error<E>>)
        ensures
            final(self)@.addr == old(self)@.addr,
            final(self)@.temp_source == old(self)@.temp_source,
            match r {
                Ok(()) => {
                    &&& final(self)@.mode == OperationMode::Config
                    &&& final(self)@.page == RegisterPage::Page0
                    &&& final(self).events() == old(self).events() + init_events(
                        old(self)@.addr,
                        old(self)@.mode,
                    )
                    &&& final(delay).delays() == old(delay).delays() + init_delays(
                        old(self)@.mode,
                    )
                },
                Err(Error::InvalidChipId(id)) => {
                    &&& id != old(self)@.addr
                    &&& final(self)@.mode == old(self)@.mode
                    &&& final(self)@.page == RegisterPage::Page0
                    &&& final(self).events() == old(self).events() + seq![
                        write_event(old(self)@.addr, PAGE_ID, page_code(RegisterPage::Page0)),
                        read_event(old(self)@.addr, CHIP_ID, id),
                    ]
                    &&& final(delay).delays() == old(delay).delays()
                },
                Err(Error::I2c(_)) => {
                    &&& (final(self)@.mode == old(self)@.mode || final(self)@.mode
                        == OperationMode::Config)
                    &&& old(self).events().is_prefix_of(final(self).events())
                    &&& old(delay).delays().is_prefix_of(final(delay).delays())
                },
            },
    {
        let ghost a = self@.addr;
        let ghost m0 = self@.mode;
        let ghost w_page = write_event(a, PAGE_ID, page_code(RegisterPage::Page0));
        match self.write_u8(PAGE_ID, RegisterPage::Page0.code()) {
            Ok(()) => {},
            Err(e) => {
                proof {
                    lemma_prefix_refl(old(self).events());
                    lemma_prefix_refl(old(delay).delays());
                }
                return Err(e);
            },
        }
        self.page = RegisterPage::Page0;
        let id = match self.read_u8(CHIP_ID) {
            Ok(b) => b,
            Err(e) => {
                proof {
                    assert(self.events() =~= old(self).events() + seq![w_page]);
                    lemma_prefix_of_concat(old(self).events(), seq![w_page]);
                    lemma_prefix_refl(old(delay).delays());
                }
                return Err(e);
            },
        };
        if id != self.i2c_addr {
            proof {
                assert(self.events() =~= old(self).events() + seq![
                    w_page,
                    read_event(a, CHIP_ID, id),
                ]);
            }
            return Err(Error::InvalidChipId(id));
        }
        let ghost r_id = read_event(a, CHIP_ID, a);
        match self.write_u8(SYS_TRIGGER, SYS_TRIGGER_RESET) {
            Ok(()) => {},
            Err(e) => {
                proof {
                    assert(self.events() =~= old(self).events() + seq![w_page, r_id]);
                    lemma_prefix_of_concat(old(self).events(), seq![w_page, r_id]);
                    lemma_prefix_refl(old(delay).delays());
                }
                return Err(e);
            },
        }
        let ghost w_rst = write_event(a, SYS_TRIGGER, SYS_TRIGGER_RESET);
        delay.delay_ms(650);
        proof {
            assert(old(delay).delays().push(650u32) =~= old(delay).delays() + seq![650u32]);
        }
        match self.set_mode(OperationMode::Config, delay) {
            Ok(()) => {},
            Err(e) => {
                proof {
                    let head = seq![w_page, r_id, w_rst];
                    assert(self.events() =~= old(self).events() + head);
                    lemma_prefix_of_concat(old(self).events(), head);
                    lemma_prefix_of_concat(old(delay).delays(), seq![650u32]);
                }
                return Err(e);
            },
        }
        let ghost msw = mode_switch_events(a, m0, RegisterPage::Page0, OperationMode::Config);
        match self.write_u8(PWR_MODE, PowerMode::Normal.code()) {
            Ok(()) => {},
            Err(e) => {
                proof {
                    assert(self.events() =~= old(self).events() + (seq![w_page, r_id, w_rst]
                        + msw));
                    lemma_prefix_of_concat(old(self).events(), seq![w_page, r_id, w_rst] + msw);
                    lemma_prefix_of_concat(
                        old(delay).delays(),
                        seq![650u32] + mode_switch_delays(m0, OperationMode::Config),
                    );
                }
                return Err(e);
            },
        }
        let ghost w_pwr = write_event(a, PWR_MODE, power_code(PowerMode::Normal));
        match self.write_u8(SYS_TRIGGER, 0) {
            Ok(()) => {},
            Err(e) => {
                proof {
                    assert(self.events() =~= old(self).events() + (seq![w_page, r_id, w_rst] + msw
                        + seq![w_pwr]));
                    lemma_prefix_of_concat(
                        old(self).events(),
                        seq![w_page, r_id, w_rst] + msw + seq![w_pwr],
                    );
                    lemma_prefix_of_concat(
                        old(delay).delays(),
                        seq![650u32] + mode_switch_delays(m0, OperationMode::Config),
                    );
                }
                return Err(e);
            },
        }
        proof {
            assert(self.events() =~= old(self).events() + init_events(a, m0));
            assert(delay.delays() =~= old(delay).delays() + init_delays(m0));
        }
        Ok(())
    }

    /// Write the packed unit-selection byte. The device only accepts the
    /// write in `Config` mode, so the current mode is saved, `Config` is
    /// entered, the byte is written, and the saved mode is restored. On a
    /// mid-sequence failure the mode may be left at `Config`.
    pub fn set_units<D: DelaySource>(&mut self, unit: Unit, delay: &mut D) -> (r: Result<
        (),
        Error<E>,
    >)
        ensures
            final(self)@.addr == old(self)@.addr,
            final(self)@.temp_source == old(self)@.temp_source,
            match r {
                Ok(()) => {
                    &&& final(self)@.mode == old(self)@.mode
                    &&& final(self)@.page == (if old(self)@.mode == OperationMode::Config {
                        old(self)@.page
                    } else {
                        RegisterPage::Page0
                    })
                    &&& final(self).events() == old(self).events() + config_write_events(
                        old(self)@.addr,
                        old(self)@.mode,
                        old(self)@.page,
                        UNIT_SEL,
                        unit_byte(unit),
                    )
                    &&& final(delay).delays() == old(delay).delays() + config_write_delays(
                        old(self)@.mode,
                    )
                },
                Err(e) => {
                    &&& e is I2c
                    &&& (final(self)@.mode == old(self)@.mode || final(self)@.mode
                        == OperationMode::Config)
                    &&& old(self).events().is_prefix_of(final(self).events())
                    &&& old(delay).delays().is_prefix_of(final(delay).delays())
                },
            },
    {
        let value = unit.byte();
        self.config_write(UNIT_SEL, value, delay)
    }

    /// Select the oscillator: bit 7 of the system-trigger register, set
    /// for the external oscillator, clear for the internal one. Uses the
    /// same save/restore-mode sequence as the unit write.
    pub fn set_external_oscillator<D: DelaySource>(&mut self, ext: bool, delay: &mut D) -> (r:
        Result<(), Error<E>>)
        ensures
            final(self)@.addr == old(self)@.addr,
            final(self)@.temp_source == old(self)@.temp_source,
            match r {
                Ok(()) => {
                    &&& final(self)@.mode == old(self)@.mode
                    &&& final(self)@.page == (if old(self)@.mode == OperationMode::Config {
                        old(self)@.page
                    } else {
                        RegisterPage::Page0
                    })
                    &&& final(self).events() == old(self).events() + config_write_events(
                        old(self)@.addr,
                        old(self)@.mode,
                        old(self)@.page,
                        SYS_TRIGGER,
                        if ext {
                            SYS_TRIGGER_EXT_OSC
                        } else {
                            0
                        },
                    )
                    &&& final(delay).delays() == old(delay).delays() + config_write_delays(
                        old(self)@.mode,
                    )
                },
                Err(e) => {
                    &&& e is I2c
                    &&& (final(self)@.mode == old(self)@.mode || final(self)@.mode
                        == OperationMode::Config)
                    &&& old(self).events().is_prefix_of(final(self).events())
                    &&& old(delay).delays().is_prefix_of(final(delay).delays())
                },
            },
    {
        let value: u8 = if ext {
            SYS_TRIGGER_EXT_OSC
        } else {
            0
        };
        self.config_write(SYS_TRIGGER, value, delay)
    }

    /// Select which internal sensor feeds the temperature register. A
    /// no-op when the cached source already equals the requested one;
    /// otherwise the same save/restore-mode sequence as the unit write,
    /// with the cache updated as soon as the source write succeeds.
    pub fn set_temp_source<D: DelaySource>(&mut self, source: TempSource, delay: &mut D) -> (r:
        Result<(), Error<E>>)
        ensures
            final(self)@.addr == old(self)@.addr,
            match r {
                Ok(()) => {
                    &&& final(self)@.mode == old(self)@.mode
                    &&& final(self)@.temp_source == source
                    &&& if old(self)@.temp_source == source {
                        final(self)@.page == old(self)@.page && final(self).events()
                            == old(self).events() && final(delay).delays() == old(delay).delays()
                    } else {
                        final(self)@.page == (if old(self)@.mode == OperationMode::Config {
                            old(self)@.page
                        } else {
                            RegisterPage::Page0
                        }) && final(self).events() == old(self).events() + config_write_events(
                            old(self)@.addr,
                            old(self)@.mode,
                            old(self)@.page,
                            TEMP_SOURCE,
                            source_code(source),
                        ) && final(delay).delays() == old(delay).delays() + config_write_delays(
                            old(self)@.mode,
                        )
                    }
                },
                Err(e) => {
                    &&& e is I2c
                    &&& old(self)@.temp_source != source
                    &&& (final(self)@.mode == old(self)@.mode || final(self)@.mode
                        == OperationMode::Config)
                    &&& (final(self)@.temp_source == old(self)@.temp_source
                        || final(self)@.temp_source == source)
                    &&& old(self).events().is_prefix_of(final(self).events())
                    &&& old(delay).delays().is_prefix_of(final(delay).delays())
                },
            },
    {
        if self.temp_source == source {
            return Ok(());
        }
        let prev = self.operation_mode;
        let ghost a = self@.addr;
        let ghost m0 = self@.mode;
        let ghost p0 = self@.page;
        let ghost msw1 = mode_switch_events(a, m0, p0, OperationMode::Config);
        let ghost mswd1 = mode_switch_delays(m0, OperationMode::Config);
        match self.set_mode(OperationMode::Config, delay) {
            Ok(()) => {},
            Err(e) => {
                proof {
                    if self.events() == old(self).events() {
                        lemma_prefix_refl(old(self).events());
                    } else {
                        lemma_prefix_of_concat(
                            old(self).events(),
                            page_select_events(a, p0, RegisterPage::Page0),
                        );
                    }
                    lemma_prefix_refl(old(delay).delays());
                }
                return Err(e);
            },
        }
        match self.write_u8(TEMP_SOURCE, source.code()) {
            Ok(()) => {},
            Err(e) => {
                proof {
                    lemma_prefix_of_concat(old(self).events(), msw1);
                    lemma_prefix_of_concat(old(delay).delays(), mswd1);
                }
                return Err(e);
            },
        }
        self.temp_source = source;
        let ghost w = write_event(a, TEMP_SOURCE, source_code(source));
        match self.set_mode(prev, delay) {
            Ok(()) => {},
            Err(e) => {
                proof {
                    assert(self.events() =~= old(self).events() + msw1.push(w));
                    lemma_prefix_of_concat(old(self).events(), msw1.push(w));
                    lemma_prefix_of_concat(old(delay).delays(), mswd1);
                }
                return Err(e);
            },
        }
        proof {
            assert(self.events() =~= old(self).events() + config_write_events(
                a,
                m0,
                p0,
                TEMP_SOURCE,
                source_code(source),
            ));
            assert(delay.delays() =~= old(delay).delays() + config_write_delays(m0));
        }
        Ok(())
    }

    /// Save the current mode, enter `Config`, write `value` to `reg`, and
    /// restore the saved mode.
    fn config_write<D: DelaySource>(&mut self, reg: u8, value: u8, delay: &mut D) -> (r: Result<
        (),
        Error<E>,
    >)
        ensures
            final(self)@.addr == old(self)@.addr,
            final(self)@.temp_source == old(self)@.temp_source,
            match r {
                Ok(()) => {
                    &&& final(self)@.mode == old(self)@.mode
                    &&& final(self)@.page == (if old(self)@.mode == OperationMode::Config {
                        old(self)@.page
                    } else {
                        RegisterPage::Page0
                    })
                    &&& final(self).events() == old(self).events() + config_write_events(
                        old(self)@.addr,
                        old(self)@.mode,
                        old(self)@.page,
                        reg,
                        value,
                    )
                    &&& final(delay).delays() == old(delay).delays() + config_write_delays(
                        old(self)@.mode,
                    )
                },
                Err(e) => {
                    &&& e is I2c
                    &&& (final(self)@.mode == old(self)@.mode || final(self)@.mode
                        == OperationMode::Config)
                    &&& old(self).events().is_prefix_of(final(self).events())
                    &&& old(delay).delays().is_prefix_of(final(delay).delays())
                },
            },
    {
        let prev = self.operation_mode;
        let ghost a = self@.addr;
        let ghost m0 = self@.mode;
        let ghost p0 = self@.page;
        let ghost msw1 = mode_switch_events(a, m0, p0, OperationMode::Config);
        let ghost mswd1 = mode_switch_delays(m0, OperationMode::Config);
        match self.set_mode(OperationMode::Config, delay) {
            Ok(()) => {},
            Err(e) => {
                proof {
                    if self.events() == old(self).events() {
                        lemma_prefix_refl(old(self).events());
                    } else {
                        lemma_prefix_of_concat(
                            old(self).events(),
                            page_select_events(a, p0, RegisterPage::Page0),
                        );
                    }
                    lemma_prefix_refl(old(delay).delays());
                }
                return Err(e);
            },
        }
        match self.write_u8(reg, value) {
            Ok(()) => {},
            Err(e) => {
                proof {
                    lemma_prefix_of_concat(old(self).events(), msw1);
                    lemma_prefix_of_concat(old(delay).delays(), mswd1);
                }
                return Err(e);
            },
        }
        let ghost w = write_event(a, reg, value);
        match self.set_mode(prev, delay) {
            Ok(()) => {},
            Err(e) => {
                proof {
                    assert(self.events() =~= old(self).events() + msw1.push(w));
                    lemma_prefix_of_concat(old(self).events(), msw1.push(w));
                    lemma_prefix_of_concat(old(delay).delays(), mswd1);
                }
                return Err(e);
            },
        }
        proof {
            assert(self.events() =~= old(self).events() + config_write_events(a, m0, p0, reg, value));
            assert(delay.delays() =~= old(delay).delays() + config_write_delays(m0));
        }
        Ok(())
    }

    /// Read the temperature register: a signed two's-complement byte.
    pub fn temperature(&mut self) -> (r: Result<i8, Error<E>>)
        ensures
            final(self)@ == old(self)@,
            match r {
                Ok(t) => final(self).events() == old(self).events().push(
                    read_event(old(self)@.addr, TEMP, temp_byte(t)),
                ),
                Err(e) => e is I2c && final(self).events() == old(self).events(),
            },
    {
        match self.read_u8(TEMP) {
            Ok(b) => {
                let t: i8 = if b < 128 {
                    b as i8
                } else {
                    ((b as i16) - 256) as i8
                };
                proof {
                    assert(temp_byte(t) == b);
                }
                Ok(t)
            },
            Err(e) => Err(e),
        }
    }
}

} // verus!
