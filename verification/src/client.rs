//! The device client: the wire-mode state machine, the transaction protocol
//! and the acquisition operations, layered over a [`Transport`].
//!
//! Every operation's contract accounts exactly for the wire lines it
//! delivers (over the transport's `sent()` model) and for the client state
//! it changes.  What the device answers is never assumed: replies go through
//! the strict parser, whose own contract is exact.

use vstd::prelude::*;

use crate::ads1299;
use crate::ads1299::{ChannelSettings, Gain, GlobalSettings};
use crate::commands::{
    json_cmd_line, spec_cmd_line_of, spec_text_line_of, text_cmd_line, CommandVerb, TextWord,
};
use crate::responses::{ClientError, Status};
use crate::sample::{decode_binary_frame, decode_json_payload, Sample, MP_MESSAGE_SIZE};
use crate::transport::Transport;
use crate::wire::{parse_status_line, trim_eol};

verus! {

/// The wire encoding the device is currently speaking.  `Unknown` only until
/// the first negotiation.
#[derive(Clone, Copy, Debug, PartialEq, Eq, Structural)]
pub enum Mode {
    Unknown,
    Text,
    JsonLines,
    MsgPack,
}

/// The wire line of a structured command without parameters.
pub open spec fn spec_plain_cmd(v: CommandVerb) -> Seq<u8> {
    spec_cmd_line_of(v, Seq::<u8>::empty())
}

/// The gain actually written: the caller's, or x1 where none was given.
pub open spec fn gain_or_default(gain: Option<Gain>) -> Gain {
    match gain {
        Some(g) => g,
        None => Gain::X1,
    }
}

/// The `wreg` parameters that enable a channel: its CHnSET register address
/// and the electrode-input mux combined with the gain bits.
pub open spec fn enable_params(chan: u8, g: Gain) -> Seq<u8>
    recommends
        chan <= 8,
{
    seq![
        (ChannelSettings::CHnSET.spec_addr() + chan) as u8,
        ads1299::ELECTRODE_INPUT | g.spec_bits(),
    ]
}

/// The `wreg` parameters that disable a channel: its CHnSET register address
/// and power-down with a shorted input.
pub open spec fn disable_params(chan: u8) -> Seq<u8>
    recommends
        chan <= 8,
{
    seq![(ChannelSettings::CHnSET.spec_addr() + chan) as u8, ads1299::PDn | ads1299::SHORTED]
}

/// The wire lines one successful bracketed register write delivers: the
/// `wreg` transaction alone, or wrapped in exactly one stop/resume pair when
/// streaming was active.
pub open spec fn bracketed_wreg_sends(params: Seq<u8>, cont: bool) -> Seq<Seq<u8>> {
    if cont {
        seq![
            spec_plain_cmd(CommandVerb::Sdatac),
            spec_cmd_line_of(CommandVerb::Wreg, params),
            spec_plain_cmd(CommandVerb::Rdatac),
        ]
    } else {
        seq![spec_cmd_line_of(CommandVerb::Wreg, params)]
    }
}

/// What a failed bracketed register write may have delivered, relating the
/// log `before` the call to the log `after` it: with the bracket, nothing,
/// the stop alone, or the stop followed by the write and/or the best-effort
/// resume; without the bracket, at most the write itself.
pub open spec fn bracket_err_sends(
    before: Seq<Seq<u8>>,
    params: Seq<u8>,
    cont: bool,
    after: Seq<Seq<u8>>,
) -> bool {
    let stop_line = spec_plain_cmd(CommandVerb::Sdatac);
    let write_line = spec_cmd_line_of(CommandVerb::Wreg, params);
    let resume_line = spec_plain_cmd(CommandVerb::Rdatac);
    if cont {
        after == before || after == before.push(stop_line) || after == before.push(
            stop_line,
        ).push(write_line) || after == before.push(stop_line).push(resume_line) || after
            == before.push(stop_line).push(write_line).push(resume_line)
    } else {
        after == before || after == before.push(write_line)
    }
}

/// A register write made while continuous-read is active takes exactly one
/// stop/resume bracket around the single `wreg` transaction — stop, write,
/// resume, in that order and nothing else — and none when streaming is off.
/// Together with the channel operations' postconditions (which also restore
/// the continuous-read flag on success) this pins the bracket behaviour
/// down for every write.
pub proof fn lemma_write_bracket(params: Seq<u8>)
    ensures
        bracketed_wreg_sends(params, true) == seq![
            spec_plain_cmd(CommandVerb::Sdatac),
            spec_cmd_line_of(CommandVerb::Wreg, params),
            spec_plain_cmd(CommandVerb::Rdatac),
        ],
        bracketed_wreg_sends(params, false) == seq![spec_cmd_line_of(CommandVerb::Wreg, params)],
{
}

/// The wire lines one successful `enable_channel` delivers.
pub open spec fn enable_channel_sends(chan: u8, g: Gain, cont: bool) -> Seq<Seq<u8>> {
    bracketed_wreg_sends(enable_params(chan, g), cont)
}

/// The wire lines one successful `disable_channel` delivers.
pub open spec fn disable_channel_sends(chan: u8, cont: bool) -> Seq<Seq<u8>> {
    bracketed_wreg_sends(disable_params(chan), cont)
}

/// The wire lines of enabling channels 1 through `n` in order.
pub open spec fn enable_all_sends(n: u8, g: Gain, cont: bool) -> Seq<Seq<u8>>
    decreases n,
{
    if n == 0 {
        Seq::empty()
    } else {
        enable_all_sends((n - 1) as u8, g, cont) + enable_channel_sends(n, g, cont)
    }
}

/// The wire lines of disabling channels 1 through `n` in order.
pub open spec fn disable_all_sends(n: u8, cont: bool) -> Seq<Seq<u8>>
    decreases n,
{
    if n == 0 {
        Seq::empty()
    } else {
        disable_all_sends((n - 1) as u8, cont) + disable_channel_sends(n, cont)
    }
}

/// The register writes of the fixed channel-test configuration, in order:
/// eight plain writes, then the bracketed disabling of channel 8.
pub open spec fn config_test_sends(cont: bool) -> Seq<Seq<u8>> {
    config_test_wreg_sends() + disable_channel_sends(8, cont)
}

/// The eight plain register writes of the channel-test configuration.
pub open spec fn config_test_wreg_sends() -> Seq<Seq<u8>> {
    seq![
        spec_cmd_line_of(
            CommandVerb::Wreg,
            seq![
                GlobalSettings::CONFIG2.spec_addr(),
                ads1299::INT_TEST_4HZ | ads1299::CONFIG2_const,
            ],
        ),
        spec_cmd_line_of(
            CommandVerb::Wreg,
            seq![ChannelSettings::CH1SET.spec_addr(), ads1299::INT_TEST_DC | Gain::X1.spec_bits()],
        ),
        spec_cmd_line_of(
            CommandVerb::Wreg,
            seq![ChannelSettings::CH2SET.spec_addr(), ads1299::SHORTED | Gain::X1.spec_bits()],
        ),
        spec_cmd_line_of(
            CommandVerb::Wreg,
            seq![ChannelSettings::CH3SET.spec_addr(), ads1299::MVDD | Gain::X1.spec_bits()],
        ),
        spec_cmd_line_of(
            CommandVerb::Wreg,
            seq![ChannelSettings::CH4SET.spec_addr(), ads1299::BIAS_DRN | Gain::X1.spec_bits()],
        ),
        spec_cmd_line_of(
            CommandVerb::Wreg,
            seq![ChannelSettings::CH5SET.spec_addr(), ads1299::BIAS_DRP | Gain::X1.spec_bits()],
        ),
        spec_cmd_line_of(
            CommandVerb::Wreg,
            seq![ChannelSettings::CH6SET.spec_addr(), ads1299::TEMP | Gain::X1.spec_bits()],
        ),
        spec_cmd_line_of(
            CommandVerb::Wreg,
            seq![ChannelSettings::CH7SET.spec_addr(), ads1299::TEST_SIGNAL | Gain::X1.spec_bits()],
        ),
    ]
}

/// The wire lines a successful `ensure_mode` transition delivers, for the
/// transitions reachable under its precondition.  A mode to itself delivers
/// nothing.
pub open spec fn transition_sends(cur: Mode, desired: Mode) -> Seq<Seq<u8>> {
    if cur == desired {
        Seq::empty()
    } else {
        match desired {
            Mode::Text => match cur {
                Mode::JsonLines => seq![spec_text_line_of(TextWord::Jsonlines)],
                Mode::MsgPack => seq![
                    spec_text_line_of(TextWord::Jsonlines),
                    spec_text_line_of(TextWord::Messagepack),
                ],
                _ => Seq::empty(),
            },
            Mode::JsonLines => match cur {
                Mode::MsgPack => seq![spec_text_line_of(TextWord::Jsonlines)],
                _ => seq![
                    spec_plain_cmd(CommandVerb::Stop),
                    spec_plain_cmd(CommandVerb::Sdatac),
                    spec_text_line_of(TextWord::Jsonlines),
                    spec_plain_cmd(CommandVerb::Nop),
                ],
            },
            Mode::MsgPack => match cur {
                Mode::JsonLines => seq![spec_plain_cmd(CommandVerb::Messagepack)],
                _ => seq![
                    spec_text_line_of(TextWord::Jsonlines),
                    spec_plain_cmd(CommandVerb::Messagepack),
                ],
            },
            Mode::Unknown => Seq::empty(),
        }
    }
}

/// Re-ensuring the mode the client is already in is a no-op on the wire:
/// the transition sequence of a mode to itself is empty.  Together with
/// `ensure_mode`'s postconditions this gives idempotence: a successful
/// `ensure_mode(m)` leaves the client in mode `m`, so a second call returns
/// `Ok(false)` and changes nothing.
pub proof fn lemma_ensure_mode_idempotent(m: Mode)
    ensures
        transition_sends(m, m) == Seq::<Seq<u8>>::empty(),
{
}

/// The device client.  It exclusively owns the transport and the current
/// wire mode; `continuous_read` tracks whether the device is streaming.
pub struct HackEEGClient<T: Transport> {
    pub transport: T,
    pub mode: Mode,
    pub continuous_read: bool,
}

impl<T: Transport> HackEEGClient<T> {
    /// The byte strings this client has delivered to the device, in order.
    pub open spec fn sent(&self) -> Seq<Seq<u8>> {
        self.transport.sent()
    }

    /// Creates a client over an already-open transport and negotiates
    /// JSON-lines mode.
    pub fn new(transport: T) -> (r: Result<HackEEGClient<T>, ClientError>)
        ensures
            r matches Ok(c) ==> c.mode == Mode::JsonLines && !c.continuous_read && c.sent()
                == transport.sent() + transition_sends(Mode::Unknown, Mode::JsonLines),
            r matches Err(e) ==> (e matches ClientError::IOError(_) || e
                == ClientError::DeserializeError || e matches ClientError::BadStatus(_)),
    {
        let mut client = HackEEGClient {
            transport,
            mode: Mode::Unknown,
            continuous_read: false,
        };
        match client.ensure_mode(Mode::JsonLines) {
            Ok(_) => Ok(client),
            Err(e) => Err(e),
        }
    }

    // -----------------------------------------------------------------------
    // Low-level send/receive
    // -----------------------------------------------------------------------

    /// Sends a bare text command line and reads back one response line,
    /// which is discarded.  A timeout on that echo read is tolerated — the
    /// device may answer nothing useful in its current mode — but any other
    /// fault of the byte stream surfaces.
    pub fn send_text_cmd(&mut self, word: TextWord) -> (r: Result<(), ClientError>)
        ensures
            final(self).mode == old(self).mode,
            final(self).continuous_read == old(self).continuous_read,
            r is Ok ==> final(self).sent() == old(self).sent().push(spec_text_line_of(word)),
            r is Err ==> (final(self).sent() == old(self).sent() || final(self).sent() == old(
                self,
            ).sent().push(spec_text_line_of(word))),
            r matches Err(e) ==> e matches ClientError::IOError(_),
            (r is Err && final(self).sent() != old(self).sent()) ==> (r matches Err(
                ClientError::IOError(t),
            ) && !t.timed_out),
    {
        let line = text_cmd_line(word);
        match self.transport.write_bytes(&line) {
            Ok(()) => {},
            Err(e) => {
                return Err(ClientError::IOError(e));
            },
        }
        match self.transport.read_line() {
            Ok(_) => Ok(()),
            Err(e) => {
                if e.timed_out {
                    Ok(())
                } else {
                    Err(ClientError::IOError(e))
                }
            },
        }
    }

    /// Reads one reply line from the transport.
    fn read_response_line(&mut self) -> (r: Result<Vec<u8>, ClientError>)
        ensures
            final(self).mode == old(self).mode,
            final(self).continuous_read == old(self).continuous_read,
            final(self).sent() == old(self).sent(),
            r matches Err(e) ==> e matches ClientError::IOError(_),
    {
        match self.transport.read_line() {
            Ok(l) => Ok(l),
            Err(e) => Err(ClientError::IOError(e)),
        }
    }

    /// Executes a structured command: delivers its JSON line, reads one
    /// reply line and parses it strictly as a status reply.
    pub fn execute_json_cmd(&mut self, verb: CommandVerb, params: &Vec<u8>) -> (r: Result<
        Status,
        ClientError,
    >)
        ensures
            final(self).mode == old(self).mode,
            final(self).continuous_read == old(self).continuous_read,
            r is Ok ==> final(self).sent() == old(self).sent().push(
                spec_cmd_line_of(verb, params@),
            ),
            r matches Err(e) ==> (e matches ClientError::IOError(_) || e
                == ClientError::DeserializeError),
            r == Err::<Status, ClientError>(ClientError::DeserializeError) ==> final(self).sent()
                == old(self).sent().push(spec_cmd_line_of(verb, params@)),
            r is Err ==> (final(self).sent() == old(self).sent() || final(self).sent() == old(
                self,
            ).sent().push(spec_cmd_line_of(verb, params@))),
    {
        let out = json_cmd_line(verb, params);
        match self.transport.write_bytes(&out) {
            Err(e) => {
                return Err(ClientError::IOError(e));
            },
            Ok(()) => {},
        }
        let mut line = match self.transport.read_line() {
            Ok(l) => l,
            Err(e) => {
                return Err(ClientError::IOError(e));
            },
        };
        trim_eol(&mut line);
        match parse_status_line(&line) {
            Some(st) => Ok(st),
            None => Err(ClientError::DeserializeError),
        }
    }

    /// Executes a no-parameter command and requires a success status: a
    /// non-200 reply is surfaced as a status error carrying code and text.
    fn checked_cmd(&mut self, verb: CommandVerb) -> (r: Result<(), ClientError>)
        ensures
            final(self).mode == old(self).mode,
            final(self).continuous_read == old(self).continuous_read,
            r is Ok ==> final(self).sent() == old(self).sent().push(spec_plain_cmd(verb)),
            r matches Err(e) ==> (e matches ClientError::IOError(_) || e
                == ClientError::DeserializeError || e matches ClientError::BadStatus(_)),
            (r matches Err(e) && !(e matches ClientError::IOError(_))) ==> final(self).sent()
                == old(self).sent().push(spec_plain_cmd(verb)),
            r is Err ==> (final(self).sent() == old(self).sent() || final(self).sent() == old(
                self,
            ).sent().push(spec_plain_cmd(verb))),
    {
        let params: Vec<u8> = Vec::new();
        proof {
            assert(params@ =~= Seq::<u8>::empty());
        }
        match self.execute_json_cmd(verb, &params) {
            Ok(st) => match st.assert_ok() {
                Ok(()) => Ok(()),
                Err(s) => Err(ClientError::BadStatus(s)),
            },
            Err(e) => Err(e),
        }
    }

    // -----------------------------------------------------------------------
    // Transactions
    // -----------------------------------------------------------------------

    /// Writes `val` to device register `reg` and hands back the status
    /// reply; the caller decides what a non-200 status means.
    pub fn wreg(&mut self, reg: u8, val: u8) -> (r: Result<Status, ClientError>)
        ensures
            final(self).mode == old(self).mode,
            final(self).continuous_read == old(self).continuous_read,
            r is Ok ==> final(self).sent() == old(self).sent().push(
                spec_cmd_line_of(CommandVerb::Wreg, seq![reg, val]),
            ),
            r matches Err(e) ==> (e matches ClientError::IOError(_) || e
                == ClientError::DeserializeError),
            (r matches Err(e) && !(e matches ClientError::IOError(_))) ==> final(self).sent()
                == old(self).sent().push(spec_cmd_line_of(CommandVerb::Wreg, seq![reg, val])),
            r is Err ==> (final(self).sent() == old(self).sent() || final(self).sent() == old(
                self,
            ).sent().push(spec_cmd_line_of(CommandVerb::Wreg, seq![reg, val]))),
    {
        let mut params: Vec<u8> = Vec::new();
        params.push(reg);
        params.push(val);
        proof {
            assert(params@ =~= seq![reg, val]);
        }
        self.execute_json_cmd(CommandVerb::Wreg, &params)
    }

    /// The no-op probe.  A reply that parses as a status yields `true`; a
    /// reply that does not parse yields `false` — deliberately not an error,
    /// because the probe is how the client detects that the device is not in
    /// JSON-lines mode yet.  Only transport faults are errors.
    pub fn noop(&mut self) -> (r: Result<bool, ClientError>)
        ensures
            final(self).mode == old(self).mode,
            final(self).continuous_read == old(self).continuous_read,
            r is Ok ==> final(self).sent() == old(self).sent().push(
                spec_plain_cmd(CommandVerb::Nop),
            ),
            r matches Err(e) ==> e matches ClientError::IOError(_),
            r is Err ==> (final(self).sent() == old(self).sent() || final(self).sent() == old(
                self,
            ).sent().push(spec_plain_cmd(CommandVerb::Nop))),
    {
        let params: Vec<u8> = Vec::new();
        proof {
            assert(params@ =~= Seq::<u8>::empty());
        }
        match self.execute_json_cmd(CommandVerb::Nop, &params) {
            Ok(_) => Ok(true),
            Err(e) => match e {
                ClientError::DeserializeError => Ok(false),
                other => Err(other),
            },
        }
    }

    /// Turns the board LED on.
    pub fn board_led_on(&mut self) -> (r: Result<(), ClientError>)
        ensures
            final(self).mode == old(self).mode,
            final(self).continuous_read == old(self).continuous_read,
            r is Ok ==> final(self).sent() == old(self).sent().push(
                spec_plain_cmd(CommandVerb::BoardLedOn),
            ),
    {
        self.checked_cmd(CommandVerb::BoardLedOn)
    }

    /// Turns the board LED off.
    pub fn board_led_off(&mut self) -> (r: Result<(), ClientError>)
        ensures
            final(self).mode == old(self).mode,
            final(self).continuous_read == old(self).continuous_read,
            r is Ok ==> final(self).sent() == old(self).sent().push(
                spec_plain_cmd(CommandVerb::BoardLedOff),
            ),
    {
        self.checked_cmd(CommandVerb::BoardLedOff)
    }

    /// Starts acquisition.
    pub fn start(&mut self) -> (r: Result<(), ClientError>)
        ensures
            final(self).mode == old(self).mode,
            final(self).continuous_read == old(self).continuous_read,
            r is Ok ==> final(self).sent() == old(self).sent().push(
                spec_plain_cmd(CommandVerb::Start),
            ),
            (r matches Err(e) && !(e matches ClientError::IOError(_))) ==> final(self).sent()
                == old(self).sent().push(spec_plain_cmd(CommandVerb::Start)),
            r is Err ==> (final(self).sent() == old(self).sent() || final(self).sent() == old(
                self,
            ).sent().push(spec_plain_cmd(CommandVerb::Start))),
            r matches Err(e) ==> (e matches ClientError::IOError(_) || e
                == ClientError::DeserializeError || e matches ClientError::BadStatus(_)),
    {
        self.checked_cmd(CommandVerb::Start)
    }

    /// Stops acquisition.
    pub fn stop(&mut self) -> (r: Result<(), ClientError>)
        ensures
            final(self).mode == old(self).mode,
            final(self).continuous_read == old(self).continuous_read,
            r is Ok ==> final(self).sent() == old(self).sent().push(
                spec_plain_cmd(CommandVerb::Stop),
            ),
            (r matches Err(e) && !(e matches ClientError::IOError(_))) ==> final(self).sent()
                == old(self).sent().push(spec_plain_cmd(CommandVerb::Stop)),
            r is Err ==> (final(self).sent() == old(self).sent() || final(self).sent() == old(
                self,
            ).sent().push(spec_plain_cmd(CommandVerb::Stop))),
            r matches Err(e) ==> (e matches ClientError::IOError(_) || e
                == ClientError::DeserializeError || e matches ClientError::BadStatus(_)),
    {
        self.checked_cmd(CommandVerb::Stop)
    }

    /// Stops continuous-read streaming; the flag is cleared on success only.
    pub fn sdatac(&mut self) -> (r: Result<(), ClientError>)
        ensures
            final(self).mode == old(self).mode,
            r is Ok ==> !final(self).continuous_read && final(self).sent() == old(
                self,
            ).sent().push(spec_plain_cmd(CommandVerb::Sdatac)),
            r is Err ==> final(self).continuous_read == old(self).continuous_read,
            (r matches Err(e) && !(e matches ClientError::IOError(_))) ==> final(self).sent()
                == old(self).sent().push(spec_plain_cmd(CommandVerb::Sdatac)),
            r is Err ==> (final(self).sent() == old(self).sent() || final(self).sent() == old(
                self,
            ).sent().push(spec_plain_cmd(CommandVerb::Sdatac))),
            r matches Err(e) ==> (e matches ClientError::IOError(_) || e
                == ClientError::DeserializeError || e matches ClientError::BadStatus(_)),
    {
        match self.checked_cmd(CommandVerb::Sdatac) {
            Ok(()) => {
                self.continuous_read = false;
                Ok(())
            },
            Err(e) => Err(e),
        }
    }

    /// Starts continuous-read streaming; the flag is set on success only.
    pub fn rdatac(&mut self) -> (r: Result<(), ClientError>)
        ensures
            final(self).mode == old(self).mode,
            r is Ok ==> final(self).continuous_read && final(self).sent() == old(
                self,
            ).sent().push(spec_plain_cmd(CommandVerb::Rdatac)),
            r is Err ==> final(self).continuous_read == old(self).continuous_read,
            (r matches Err(e) && !(e matches ClientError::IOError(_))) ==> final(self).sent()
                == old(self).sent().push(spec_plain_cmd(CommandVerb::Rdatac)),
            r is Err ==> (final(self).sent() == old(self).sent() || final(self).sent() == old(
                self,
            ).sent().push(spec_plain_cmd(CommandVerb::Rdatac))),
            r matches Err(e) ==> (e matches ClientError::IOError(_) || e
                == ClientError::DeserializeError || e matches ClientError::BadStatus(_)),
    {
        match self.checked_cmd(CommandVerb::Rdatac) {
            Ok(()) => {
                self.continuous_read = true;
                Ok(())
            },
            Err(e) => Err(e),
        }
    }

    // -----------------------------------------------------------------------
    // Channel configuration
    // -----------------------------------------------------------------------

    /// One register write whose status must report success, bracketed in
    /// exactly one stop/resume pair when streaming is active.  On a failure
    /// after the stop, streaming is resumed best-effort before the original
    /// error is reported.
    fn bracketed_wreg(&mut self, reg: u8, val: u8) -> (r: Result<(), ClientError>)
        ensures
            final(self).mode == old(self).mode,
            r is Ok ==> final(self).continuous_read == old(self).continuous_read,
            r is Ok ==> final(self).sent() == old(self).sent() + bracketed_wreg_sends(
                seq![reg, val],
                old(self).continuous_read,
            ),
            r matches Err(e) ==> (e matches ClientError::IOError(_) || e
                == ClientError::DeserializeError || e matches ClientError::BadStatus(_)),
            r is Err ==> (final(self).continuous_read ==> old(self).continuous_read),
            r is Err ==> bracket_err_sends(
                old(self).sent(),
                seq![reg, val],
                old(self).continuous_read,
                final(self).sent(),
            ),
    {
        let was_reading = self.continuous_read;
        if was_reading {
            match self.sdatac() {
                Ok(()) => {},
                Err(e) => {
                    return Err(e);
                },
            }
        }
        let st = match self.wreg(reg, val) {
            Ok(st) => st,
            Err(e) => {
                // best effort: get streaming going again before reporting
                if was_reading {
                    let _ = self.rdatac();
                }
                return Err(e);
            },
        };
        match st.assert_ok() {
            Ok(()) => {},
            Err(s) => {
                if was_reading {
                    let _ = self.rdatac();
                }
                return Err(ClientError::BadStatus(s));
            },
        }
        if was_reading {
            match self.rdatac() {
                Ok(()) => {},
                Err(e) => {
                    return Err(e);
                },
            }
        }
        Ok(())
    }

    /// Enables a channel with the given gain (x1 where none is given).  When
    /// continuous-read is active the operation brackets the single register
    /// write in exactly one stop/resume pair, and on success the flag is set
    /// again exactly as it was; on failure the resume is still attempted,
    /// best-effort, and the original error is reported.
    pub fn enable_channel(&mut self, chan_num: u8, gain: Option<Gain>) -> (r: Result<
        (),
        ClientError,
    >)
        requires
            1 <= chan_num <= 8,
        ensures
            final(self).mode == old(self).mode,
            r is Ok ==> final(self).continuous_read == old(self).continuous_read,
            r is Ok ==> final(self).sent() == old(self).sent() + enable_channel_sends(
                chan_num,
                gain_or_default(gain),
                old(self).continuous_read,
            ),
            r matches Err(e) ==> (e matches ClientError::IOError(_) || e
                == ClientError::DeserializeError || e matches ClientError::BadStatus(_)),
            r is Err ==> (final(self).continuous_read ==> old(self).continuous_read),
            r is Err ==> bracket_err_sends(
                old(self).sent(),
                enable_params(chan_num, gain_or_default(gain)),
                old(self).continuous_read,
                final(self).sent(),
            ),
    {
        let g = match gain {
            Some(g) => g,
            None => Gain::X1,
        };
        let addr = ChannelSettings::CHnSET.addr() + chan_num;
        let val = ads1299::ELECTRODE_INPUT | g.bits();
        proof {
            assert(enable_params(chan_num, gain_or_default(gain)) =~= seq![addr, val]);
        }
        self.bracketed_wreg(addr, val)
    }

    /// Disables a channel: powers it down and shorts its input.  Like
    /// `enable_channel`, the register write is bracketed in exactly one
    /// stop/resume pair when continuous-read is active.
    pub fn disable_channel(&mut self, chan_num: u8) -> (r: Result<(), ClientError>)
        requires
            1 <= chan_num <= 8,
        ensures
            final(self).mode == old(self).mode,
            r is Ok ==> final(self).continuous_read == old(self).continuous_read,
            r is Ok ==> final(self).sent() == old(self).sent() + disable_channel_sends(
                chan_num,
                old(self).continuous_read,
            ),
            r matches Err(e) ==> (e matches ClientError::IOError(_) || e
                == ClientError::DeserializeError || e matches ClientError::BadStatus(_)),
            r is Err ==> (final(self).continuous_read ==> old(self).continuous_read),
            r is Err ==> bracket_err_sends(
                old(self).sent(),
                disable_params(chan_num),
                old(self).continuous_read,
                final(self).sent(),
            ),
    {
        let addr = ChannelSettings::CHnSET.addr() + chan_num;
        let val = ads1299::PDn | ads1299::SHORTED;
        proof {
            assert(disable_params(chan_num) =~= seq![addr, val]);
        }
        self.bracketed_wreg(addr, val)
    }

    /// A register write whose status reply must report success; a non-200
    /// status is surfaced as a status error.
    fn checked_wreg(&mut self, reg: u8, val: u8) -> (r: Result<(), ClientError>)
        ensures
            final(self).mode == old(self).mode,
            final(self).continuous_read == old(self).continuous_read,
            r is Ok ==> final(self).sent() == old(self).sent().push(
                spec_cmd_line_of(CommandVerb::Wreg, seq![reg, val]),
            ),
            r matches Err(e) ==> (e matches ClientError::IOError(_) || e
                == ClientError::DeserializeError || e matches ClientError::BadStatus(_)),
            r is Err ==> (final(self).sent() == old(self).sent() || final(self).sent() == old(
                self,
            ).sent().push(spec_cmd_line_of(CommandVerb::Wreg, seq![reg, val]))),
    {
        let st = match self.wreg(reg, val) {
            Ok(st) => st,
            Err(e) => {
                return Err(e);
            },
        };
        match st.assert_ok() {
            Ok(()) => Ok(()),
            Err(s) => Err(ClientError::BadStatus(s)),
        }
    }

    /// Enables every channel with one gain, in channel order.
    #[verifier::loop_isolation(false)]
    pub fn enable_all_channels(&mut self, gain: Option<Gain>) -> (r: Result<(), ClientError>)
        ensures
            final(self).mode == old(self).mode,
            r is Ok ==> final(self).continuous_read == old(self).continuous_read,
            r is Ok ==> final(self).sent() == old(self).sent() + enable_all_sends(
                8,
                gain_or_default(gain),
                old(self).continuous_read,
            ),
            r matches Err(e) ==> (e matches ClientError::IOError(_) || e
                == ClientError::DeserializeError || e matches ClientError::BadStatus(_)),
            final(self).continuous_read ==> old(self).continuous_read,
    {
        let ghost s0 = self.sent();
        let ghost c0 = self.continuous_read;
        let mut chan: u8 = 1;
        while chan <= 8
            invariant
                1 <= chan <= 9,
                self.mode == old(self).mode,
                self.continuous_read == c0,
                self.sent() == s0 + enable_all_sends(
                    (chan - 1) as u8,
                    gain_or_default(gain),
                    c0,
                ),
            decreases 9 - chan,
        {
            match self.enable_channel(chan, gain) {
                Ok(()) => {},
                Err(e) => {
                    return Err(e);
                },
            }
            proof {
                assert(self.sent() =~= s0 + enable_all_sends(
                    chan as u8,
                    gain_or_default(gain),
                    c0,
                ));
            }
            chan += 1;
        }
        Ok(())
    }

    /// Disables every channel, in channel order.
    #[verifier::loop_isolation(false)]
    pub fn disable_all_channels(&mut self) -> (r: Result<(), ClientError>)
        ensures
            final(self).mode == old(self).mode,
            r is Ok ==> final(self).continuous_read == old(self).continuous_read,
            r is Ok ==> final(self).sent() == old(self).sent() + disable_all_sends(
                8,
                old(self).continuous_read,
            ),
            r matches Err(e) ==> (e matches ClientError::IOError(_) || e
                == ClientError::DeserializeError || e matches ClientError::BadStatus(_)),
            final(self).continuous_read ==> old(self).continuous_read,
    {
        let ghost s0 = self.sent();
        let ghost c0 = self.continuous_read;
        let mut chan: u8 = 1;
        while chan <= 8
            invariant
                1 <= chan <= 9,
                self.mode == old(self).mode,
                self.continuous_read == c0,
                self.sent() == s0 + disable_all_sends((chan - 1) as u8, c0),
            decreases 9 - chan,
        {
            match self.disable_channel(chan) {
                Ok(()) => {},
                Err(e) => {
                    return Err(e);
                },
            }
            proof {
                assert(self.sent() =~= s0 + disable_all_sends(chan as u8, c0));
            }
            chan += 1;
        }
        Ok(())
    }

    /// Writes the fixed channel-test configuration: an internal test signal
    /// on CONFIG2, one diagnostic input per channel, and channel 8 disabled.
    pub fn channel_config_test(&mut self) -> (r: Result<(), ClientError>)
        ensures
            final(self).mode == old(self).mode,
            r is Ok ==> final(self).continuous_read == old(self).continuous_read,
            r is Ok ==> final(self).sent() == old(self).sent() + config_test_sends(
                old(self).continuous_read,
            ),
            r matches Err(e) ==> (e matches ClientError::IOError(_) || e
                == ClientError::DeserializeError || e matches ClientError::BadStatus(_)),
            final(self).continuous_read ==> old(self).continuous_read,
    {
        match self.checked_wreg(
            GlobalSettings::CONFIG2.addr(),
            ads1299::INT_TEST_4HZ | ads1299::CONFIG2_const,
        ) {
            Ok(()) => {},
            Err(e) => {
                return Err(e);
            },
        }
        match self.checked_wreg(
            ChannelSettings::CH1SET.addr(),
            ads1299::INT_TEST_DC | Gain::X1.bits(),
        ) {
            Ok(()) => {},
            Err(e) => {
                return Err(e);
            },
        }
        match self.checked_wreg(ChannelSettings::CH2SET.addr(), ads1299::SHORTED | Gain::X1.bits())
            {
            Ok(()) => {},
            Err(e) => {
                return Err(e);
            },
        }
        match self.checked_wreg(ChannelSettings::CH3SET.addr(), ads1299::MVDD | Gain::X1.bits()) {
            Ok(()) => {},
            Err(e) => {
                return Err(e);
            },
        }
        match self.checked_wreg(ChannelSettings::CH4SET.addr(), ads1299::BIAS_DRN | Gain::X1.bits())
            {
            Ok(()) => {},
            Err(e) => {
                return Err(e);
            },
        }
        match self.checked_wreg(ChannelSettings::CH5SET.addr(), ads1299::BIAS_DRP | Gain::X1.bits())
            {
            Ok(()) => {},
            Err(e) => {
                return Err(e);
            },
        }
        match self.checked_wreg(ChannelSettings::CH6SET.addr(), ads1299::TEMP | Gain::X1.bits()) {
            Ok(()) => {},
            Err(e) => {
                return Err(e);
            },
        }
        match self.checked_wreg(
            ChannelSettings::CH7SET.addr(),
            ads1299::TEST_SIGNAL | Gain::X1.bits(),
        ) {
            Ok(()) => {},
            Err(e) => {
                return Err(e);
            },
        }
        match self.disable_channel(8) {
            Ok(()) => {},
            Err(e) => {
                return Err(e);
            },
        }
        proof {
            assert(self.sent() =~= old(self).sent() + config_test_sends(
                old(self).continuous_read,
            ));
        }
        Ok(())
    }

    /// Reads the next streamed sample frame according to the current wire
    /// mode: a fixed-size binary message in MessagePack mode, one JSON line
    /// in JSON-lines mode.  Exactly the other modes are a usage error; in
    /// the two valid modes only transport faults and decode failures can
    /// come back.
    pub fn read_rdatac_response(&mut self) -> (r: Result<Sample, ClientError>)
        ensures
            final(self).mode == old(self).mode,
            final(self).continuous_read == old(self).continuous_read,
            final(self).sent() == old(self).sent(),
            r == Err::<Sample, ClientError>(ClientError::BadMode) <==> (old(self).mode
                != Mode::JsonLines && old(self).mode != Mode::MsgPack),
            old(self).mode == Mode::MsgPack ==> (r matches Err(e) ==> e matches
                ClientError::IOError(_)),
            old(self).mode == Mode::JsonLines ==> (r matches Err(e) ==> (e matches
                ClientError::IOError(_) || e == ClientError::DeserializeError || e
                == ClientError::InvalidBase64)),
    {
        match self.mode {
            Mode::MsgPack => self.messagepack_read(),
            Mode::JsonLines => {
                let mut line = match self.read_response_line() {
                    Ok(l) => l,
                    Err(e) => {
                        return Err(e);
                    },
                };
                trim_eol(&mut line);
                decode_json_payload(&line)
            },
            _ => Err(ClientError::BadMode),
        }
    }

    /// Reads one fixed-size binary MessagePack wire message and decodes it.
    /// A full message always decodes, so only transport faults can fail.
    fn messagepack_read(&mut self) -> (r: Result<Sample, ClientError>)
        ensures
            final(self).mode == old(self).mode,
            final(self).continuous_read == old(self).continuous_read,
            final(self).sent() == old(self).sent(),
            r matches Err(e) ==> e matches ClientError::IOError(_),
    {
        let buf = match self.transport.read_exact(MP_MESSAGE_SIZE) {
            Ok(b) => b,
            Err(e) => {
                return Err(ClientError::IOError(e));
            },
        };
        decode_binary_frame(&buf)
    }

    /// Stops acquisition and streaming and drains the stream to idle, the
    /// shutdown sequence used when leaving MessagePack streaming.
    pub fn stop_and_sdatac_messagepack(&mut self) -> (r: Result<(), ClientError>)
        ensures
            final(self).mode == old(self).mode,
            r is Ok ==> !final(self).continuous_read && final(self).sent() == old(self).sent()
                + seq![
                spec_plain_cmd(CommandVerb::Stop),
                spec_plain_cmd(CommandVerb::Sdatac),
                spec_plain_cmd(CommandVerb::Nop),
            ],
            r matches Err(e) ==> (e matches ClientError::IOError(_) || e
                == ClientError::DeserializeError || e matches ClientError::BadStatus(_)),
    {
        match self.stop() {
            Ok(()) => {},
            Err(e) => {
                return Err(e);
            },
        }
        match self.sdatac() {
            Ok(()) => {},
            Err(e) => {
                return Err(e);
            },
        }
        match self.noop() {
            Ok(_) => {},
            Err(e) => {
                return Err(e);
            },
        }
        match self.drain_to_eof() {
            Ok(_) => {},
            Err(e) => {
                return Err(e);
            },
        }
        proof {
            assert(self.sent() =~= old(self).sent() + seq![
                spec_plain_cmd(CommandVerb::Stop),
                spec_plain_cmd(CommandVerb::Sdatac),
                spec_plain_cmd(CommandVerb::Nop),
            ]);
        }
        Ok(())
    }

    /// Reads and discards whatever the device still has buffered, until the
    /// stream goes idle; a read timeout ends the drain without failing it,
    /// so an error can only be some other fault of the byte stream.
    pub fn drain_to_eof(&mut self) -> (r: Result<usize, ClientError>)
        ensures
            final(self).mode == old(self).mode,
            final(self).continuous_read == old(self).continuous_read,
            final(self).sent() == old(self).sent(),
            r matches Err(e) ==> (e matches ClientError::IOError(t) && !t.timed_out),
    {
        match self.transport.drain() {
            Ok(n) => Ok(n),
            Err(e) => Err(ClientError::IOError(e)),
        }
    }

    // -----------------------------------------------------------------------
    // Mode state machine
    // -----------------------------------------------------------------------

    /// Ensures the device is speaking `desired`, delivering the minimal
    /// command sequence, and reports whether a transition was needed.  On
    /// success the client is in the desired mode and the wire carried
    /// exactly `transition_sends`; on failure the recorded mode is left
    /// unchanged (the device-side mode is then unknown).
    ///
    /// Transitions out of `Unknown` other than to JSON lines are excluded:
    /// the client always negotiates JSON lines first.
    pub fn ensure_mode(&mut self, desired: Mode) -> (r: Result<bool, ClientError>)
        requires
            old(self).mode != desired ==> desired != Mode::Unknown && (old(self).mode
                != Mode::Unknown || desired == Mode::JsonLines),
        ensures
            r is Ok ==> final(self).mode == desired,
            r is Err ==> final(self).mode == old(self).mode,
            r matches Ok(changed) ==> changed == (old(self).mode != desired),
            r is Ok ==> final(self).sent() == old(self).sent() + transition_sends(
                old(self).mode,
                desired,
            ),
            old(self).mode == desired ==> r == Ok::<bool, ClientError>(false) && *final(self)
                == *old(self),
            final(self).continuous_read ==> old(self).continuous_read,
            r matches Err(e) ==> (e matches ClientError::IOError(_) || e
                == ClientError::DeserializeError || e matches ClientError::BadStatus(_)),
    {
        if self.mode == desired {
            proof {
                assert(old(self).sent() + transition_sends(old(self).mode, desired) =~= old(
                    self,
                ).sent());
            }
            return Ok(false);
        }
        match desired {
            Mode::Text => {
                match self.mode {
                    Mode::JsonLines => {
                        match self.send_text_cmd(TextWord::Jsonlines) {
                            Ok(()) => {},
                            Err(e) => {
                                return Err(e);
                            },
                        }
                    },
                    Mode::MsgPack => {
                        match self.send_text_cmd(TextWord::Jsonlines) {
                            Ok(()) => {},
                            Err(e) => {
                                return Err(e);
                            },
                        }
                        match self.send_text_cmd(TextWord::Messagepack) {
                            Ok(()) => {},
                            Err(e) => {
                                return Err(e);
                            },
                        }
                    },
                    _ => {
                        proof {
                            assert(false);
                        }
                        return Err(ClientError::BadMode);
                    },
                }
            },
            Mode::JsonLines => {
                match self.mode {
                    Mode::MsgPack => {
                        match self.send_text_cmd(TextWord::Jsonlines) {
                            Ok(()) => {},
                            Err(e) => {
                                return Err(e);
                            },
                        }
                    },
                    _ => {
                        // The device may already be idle or may not speak JSON
                        // yet, so status and decode failures of stop/sdatac are
                        // deliberately ignored here; transport faults abort.
                        match self.stop() {
                            Err(ClientError::IOError(e)) => {
                                return Err(ClientError::IOError(e));
                            },
                            _ => {},
                        }
                        match self.sdatac() {
                            Err(ClientError::IOError(e)) => {
                                return Err(ClientError::IOError(e));
                            },
                            _ => {},
                        }
                        match self.drain_to_eof() {
                            Ok(_) => {},
                            Err(e) => {
                                return Err(e);
                            },
                        }
                        match self.send_text_cmd(TextWord::Jsonlines) {
                            Ok(()) => {},
                            Err(e) => {
                                return Err(e);
                            },
                        }
                        // The probe confirms structured replies; its boolean is
                        // not needed here, only its transport health.
                        match self.noop() {
                            Ok(_) => {},
                            Err(e) => {
                                return Err(e);
                            },
                        }
                    },
                }
            },
            Mode::MsgPack => {
                match self.mode {
                    Mode::JsonLines => {
                        match self.checked_cmd(CommandVerb::Messagepack) {
                            Ok(()) => {},
                            Err(e) => {
                                return Err(e);
                            },
                        }
                    },
                    Mode::Text => {
                        match self.send_text_cmd(TextWord::Jsonlines) {
                            Ok(()) => {},
                            Err(e) => {
                                return Err(e);
                            },
                        }
                        match self.checked_cmd(CommandVerb::Messagepack) {
                            Ok(()) => {},
                            Err(e) => {
                                return Err(e);
                            },
                        }
                    },
                    _ => {
                        proof {
                            assert(false);
                        }
                        return Err(ClientError::BadMode);
                    },
                }
            },
            Mode::Unknown => {
                proof {
                    assert(false);
                }
                return Err(ClientError::BadMode);
            },
        }
        self.mode = desired;
        proof {
            assert(self.sent() =~= old(self).sent() + transition_sends(old(self).mode, desired));
        }
        Ok(true)
    }
}

} // verus!
