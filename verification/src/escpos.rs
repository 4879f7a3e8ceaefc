use vstd::prelude::*;
use vstd::string::{StrSliceExecFns, StringExecFns, StringSliceAdditionalSpecFns};
use vstd::utf8::encode_utf8;

verus! {

/// Escape: starts a printer command.
pub const ESC: u8 = 0x1B;

/// Group separator: starts a printer command.
pub const GS: u8 = 0x1D;

/// Data link escape: starts a real-time command.
pub const DLE: u8 = 0x10;

/// File separator: starts a kanji command.
pub const FS: u8 = 0x1C;

/// Printer status: online.
pub const STATUS_ONLINE: u8 = 0x00;

/// Printer status: drawer open.
pub const STATUS_DRAWER_OPEN: u8 = 0x04;

/// Paper sensor: paper present.
pub const STATUS_PAPER_PRESENT: u8 = 0x00;

/// Paper sensor: paper at its end.
pub const STATUS_PAPER_END: u8 = 0x0C;

/// Mathematical value of an [`EscPosEmulator`].
pub struct PrinterView {
    /// Print buffer (accumulated text)
    pub buffer: Seq<u8>,
    /// Current character set
    pub charset: u8,
    /// Bold mode enabled
    pub bold: bool,
    /// Underline mode
    pub underline: u8,
    /// Double width
    pub double_width: bool,
    /// Double height
    pub double_height: bool,
    /// Justification (0=left, 1=center, 2=right)
    pub justify: u8,
    /// Paper present
    pub paper_present: bool,
    /// Drawer open
    pub drawer_open: bool,
    /// Error state
    pub has_error: bool,
    /// Total bytes received, counted modulo 2^32
    pub bytes_received: u32,
    /// Total lines printed, counted modulo 2^32
    pub lines_printed: u32,
}

/// A counter after `n` more, modulo 2^32.
pub open spec fn wrapped(count: u32, n: nat) -> u32 {
    ((count + n) % 0x1_0000_0000) as u32
}

/// A printer as it is when switched on: empty buffer, plain text, paper in.
pub open spec fn switched_on() -> PrinterView {
    PrinterView {
        buffer: Seq::empty(),
        charset: 0,
        bold: false,
        underline: 0,
        double_width: false,
        double_height: false,
        justify: 0,
        paper_present: true,
        drawer_open: false,
        has_error: false,
        bytes_received: 0,
        lines_printed: 0,
    }
}

/// The printer after a reset: buffer, text style and error are cleared; the
/// paper, the drawer and the two counters stay.
pub open spec fn initialized(p: PrinterView) -> PrinterView {
    PrinterView {
        buffer: Seq::empty(),
        charset: 0,
        bold: false,
        underline: 0,
        double_width: false,
        double_height: false,
        justify: 0,
        has_error: false,
        ..p
    }
}

/// The printer after a print mode byte: bit 3 is bold, bit 4 double height,
/// bit 5 double width, bit 7 underline.
pub open spec fn with_print_mode(p: PrinterView, mode: u8) -> PrinterView {
    PrinterView {
        bold: (mode & 0x08) != 0,
        double_height: (mode & 0x10) != 0,
        double_width: (mode & 0x20) != 0,
        underline: if (mode & 0x80) != 0 {
            1
        } else {
            0
        },
        ..p
    }
}

/// The printer after one line feed: the buffer is flushed and the line is
/// counted.
pub open spec fn printed_line(p: PrinterView) -> PrinterView {
    PrinterView { buffer: Seq::empty(), lines_printed: wrapped(p.lines_printed, 1), ..p }
}

/// The printer after `n` line feeds.
pub open spec fn printed_lines(p: PrinterView, n: nat) -> PrinterView
    decreases n,
{
    if n == 0 {
        p
    } else {
        printed_line(printed_lines(p, (n - 1) as nat))
    }
}

/// The status byte that the printer answers to a query of the given kind:
/// 1 printer, 2 offline, 3 error, 4 paper sensor; any other kind gives zero.
pub open spec fn status_byte(p: PrinterView, kind: u8) -> u8 {
    if kind == 1 {
        if !p.paper_present && p.has_error {
            0x60
        } else if !p.paper_present {
            0x20
        } else if p.has_error {
            0x40
        } else {
            0x00
        }
    } else if kind == 2 {
        if !p.paper_present {
            0x04
        } else {
            0x00
        }
    } else if kind == 3 {
        if p.has_error {
            0x08
        } else {
            0x00
        }
    } else if kind == 4 {
        if p.paper_present {
            0x00
        } else {
            0x0C
        }
    } else {
        0x00
    }
}

/// The answer to a real-time command: the printer status for `EOT`, the
/// online byte for `ENQ`, nothing for anything else.
pub open spec fn dle_response(p: PrinterView, cmd: u8) -> Option<Seq<u8>> {
    if cmd == 0x04 {
        Some(seq![status_byte(p, 1)])
    } else if cmd == 0x05 {
        Some(seq![0x00u8])
    } else {
        None
    }
}

/// The effect of an `ESC` command that starts `rest`: the printer
/// afterwards and the number of bytes the command takes.
pub open spec fn esc_effect(p: PrinterView, rest: Seq<u8>) -> (PrinterView, nat) {
    if rest.len() < 2 {
        (p, 1)
    } else if rest[1] == 0x40 {
        (initialized(p), 2)
    } else if rest[1] == 0x21 {
        if rest.len() >= 3 {
            (with_print_mode(p, rest[2]), 3)
        } else {
            (p, 2)
        }
    } else if rest[1] == 0x45 {
        if rest.len() >= 3 {
            (PrinterView { bold: rest[2] != 0, ..p }, 3)
        } else {
            (p, 2)
        }
    } else if rest[1] == 0x2D {
        if rest.len() >= 3 {
            (PrinterView { underline: rest[2], ..p }, 3)
        } else {
            (p, 2)
        }
    } else if rest[1] == 0x61 {
        if rest.len() >= 3 {
            (PrinterView { justify: rest[2] % 3, ..p }, 3)
        } else {
            (p, 2)
        }
    } else if rest[1] == 0x64 {
        if rest.len() >= 3 {
            (printed_lines(p, rest[2] as nat), 3)
        } else {
            (p, 2)
        }
    } else if rest[1] == 0x70 {
        if rest.len() >= 5 {
            (p, 5)
        } else {
            (p, 2)
        }
    } else if rest[1] == 0x74 {
        if rest.len() >= 3 {
            (PrinterView { charset: rest[2], ..p }, 3)
        } else {
            (p, 2)
        }
    } else if rest[1] == 0x52 {
        if rest.len() >= 3 {
            (p, 3)
        } else {
            (p, 2)
        }
    } else if rest[1] == 0x63 {
        if rest.len() >= 4 {
            (p, 4)
        } else {
            (p, 2)
        }
    } else {
        (p, 2)
    }
}

/// The effect of a `GS` command that starts `rest`: the printer afterwards,
/// the number of bytes the command takes, and its answer if it has one.
pub open spec fn gs_effect(p: PrinterView, rest: Seq<u8>) -> (PrinterView, nat, Option<Seq<u8>>) {
    if rest.len() < 2 {
        (p, 1, None)
    } else if rest[1] == 0x56 {
        if rest.len() >= 3 {
            (printed_line(p), 3, None)
        } else {
            (p, 2, None)
        }
    } else if rest[1] == 0x21 {
        if rest.len() >= 3 {
            (
                PrinterView {
                    double_width: (rest[2] & 0x10) != 0,
                    double_height: (rest[2] & 0x01) != 0,
                    ..p
                },
                3,
                None,
            )
        } else {
            (p, 2, None)
        }
    } else if rest[1] == 0x72 {
        if rest.len() >= 3 {
            (p, 3, Some(seq![status_byte(p, rest[2])]))
        } else {
            (p, 2, None)
        }
    } else if rest[1] == 0x61 {
        if rest.len() >= 3 {
            (p, 3, None)
        } else {
            (p, 2, None)
        }
    } else if rest[1] == 0x28 {
        if rest.len() >= 6 && rest[2] == 0x41 {
            (p, 6, None)
        } else {
            (p, 2, None)
        }
    } else if rest[1] == 0x6B {
        (p, 4, None)
    } else {
        (p, 2, None)
    }
}

/// The larger of a command's length and two.
pub open spec fn at_least_two(n: nat) -> nat {
    if n < 2 {
        2
    } else {
        n
    }
}

/// The effect of whatever starts `rest`, which is not empty: the printer
/// afterwards, the answer held so far, and the number of bytes taken. A
/// command byte that is the last byte of the input is skipped.
pub open spec fn step_effect(p: PrinterView, response: Option<Seq<u8>>, rest: Seq<u8>) -> (
    PrinterView,
    Option<Seq<u8>>,
    nat,
) {
    let b = rest[0];
    if b == 0x10 {
        if rest.len() > 1 {
            (p, dle_response(p, rest[1]), 2)
        } else {
            (p, response, 1)
        }
    } else if b == 0x1B {
        if rest.len() > 1 {
            (esc_effect(p, rest).0, response, at_least_two(esc_effect(p, rest).1))
        } else {
            (p, response, 1)
        }
    } else if b == 0x1D {
        if rest.len() > 1 {
            (
                gs_effect(p, rest).0,
                if gs_effect(p, rest).2 is Some {
                    gs_effect(p, rest).2
                } else {
                    response
                },
                at_least_two(gs_effect(p, rest).1),
            )
        } else {
            (p, response, 1)
        }
    } else if b == 0x1C {
        if rest.len() > 1 {
            (p, response, 2)
        } else {
            (p, response, 1)
        }
    } else if b == 0x0A {
        (printed_line(p), response, 1)
    } else if b == 0x0D {
        (p, response, 1)
    } else if b == 0x0C {
        (printed_line(p), response, 1)
    } else {
        (PrinterView { buffer: p.buffer.push(b), ..p }, response, 1)
    }
}

/// What is left of the input after `n` bytes are taken.
pub open spec fn after(rest: Seq<u8>, n: nat) -> Seq<u8> {
    if n >= rest.len() {
        Seq::empty()
    } else {
        rest.skip(n as int)
    }
}

/// The effect of a byte string taken command by command: the printer
/// afterwards and the answer of the last command that gave one.
pub open spec fn run_effect(p: PrinterView, response: Option<Seq<u8>>, rest: Seq<u8>) -> (
    PrinterView,
    Option<Seq<u8>>,
)
    decreases rest.len(),
{
    if rest.len() == 0 {
        (p, response)
    } else {
        let (next, answer, n) = step_effect(p, response, rest);
        if n == 0 {
            (next, answer)
        } else {
            run_effect(next, answer, after(rest, n))
        }
    }
}

/// The effect of received data: the bytes are counted, then taken command
/// by command.
pub open spec fn process_effect(p: PrinterView, data: Seq<u8>) -> (PrinterView, Option<Seq<u8>>) {
    run_effect(
        PrinterView { bytes_received: wrapped(p.bytes_received, data.len()), ..p },
        None,
        data,
    )
}

/// The bytes of an optional answer.
pub open spec fn opt_bytes(o: Option<Vec<u8>>) -> Option<Seq<u8>> {
    match o {
        Some(v) => Some(v@),
        None => None,
    }
}

/// ESC/POS Printer emulator state
pub struct EscPosEmulator {
    buffer: Vec<u8>,
    charset: u8,
    bold: bool,
    underline: u8,
    double_width: bool,
    double_height: bool,
    justify: u8,
    paper_present: bool,
    drawer_open: bool,
    has_error: bool,
    bytes_received: u32,
    lines_printed: u32,
}

impl View for EscPosEmulator {
    type V = PrinterView;

    closed spec fn view(&self) -> PrinterView {
        PrinterView {
            buffer: self.buffer@,
            charset: self.charset,
            bold: self.bold,
            underline: self.underline,
            double_width: self.double_width,
            double_height: self.double_height,
            justify: self.justify,
            paper_present: self.paper_present,
            drawer_open: self.drawer_open,
            has_error: self.has_error,
            bytes_received: self.bytes_received,
            lines_printed: self.lines_printed,
        }
    }
}

fn one_byte(b: u8) -> (v: Vec<u8>)
    ensures
        v@ == seq![b],
{
    let mut v: Vec<u8> = Vec::new();
    v.push(b);
    v
}

impl EscPosEmulator {
    /// A printer as it is when switched on.
    pub fn new() -> (e: EscPosEmulator)
        ensures
            e@ == switched_on(),
    {
        EscPosEmulator {
            buffer: Vec::new(),
            charset: 0,
            bold: false,
            underline: 0,
            double_width: false,
            double_height: false,
            justify: 0,
            paper_present: true,
            drawer_open: false,
            has_error: false,
            bytes_received: 0,
            lines_printed: 0,
        }
    }

    /// Process incoming ESC/POS data.
    /// Returns response bytes if the command requires a response.
    pub fn process(&mut self, data: &[u8]) -> (response: Option<Vec<u8>>)
        ensures
            final(self)@ == process_effect(old(self)@, data@).0,
            opt_bytes(response) == process_effect(old(self)@, data@).1,
    {
        let len = data.len();
        self.bytes_received = self.bytes_received.wrapping_add(
            (len as u64 % 0x1_0000_0000u64) as u32,
        );
        let ghost counted = self@;
        assert(counted == (PrinterView {
            bytes_received: wrapped(old(self)@.bytes_received, data@.len()),
            ..old(self)@
        }));
        let mut response: Option<Vec<u8>> = None;
        let mut i: usize = 0;
        assert(data@.skip(0) =~= data@);
        while i < len
            invariant
                len == data@.len(),
                i <= len,
                run_effect(counted, None, data@) == run_effect(
                    self@,
                    opt_bytes(response),
                    data@.skip(i as int),
                ),
            decreases len - i,
        {
            let ghost rest = data@.skip(i as int);
            let ghost before = self@;
            let ghost held = opt_bytes(response);
            let b = data[i];
            let left = len - i;
            let mut taken: usize = 1;
            assert(rest[0] == b);
            assert(rest.len() == left);
            if b == DLE {
                if left > 1 {
                    assert(rest[1] == data@[i + 1]);
                    response = self.handle_dle_command(data[i + 1]);
                    taken = 2;
                }
            } else if b == ESC {
                if left > 1 {
                    let consumed = self.handle_esc_command(data, i);
                    taken = if consumed < 2 {
                        2
                    } else {
                        consumed
                    };
                }
            } else if b == GS {
                if left > 1 {
                    let (consumed, resp) = self.handle_gs_command(data, i);
                    if resp.is_some() {
                        response = resp;
                    }
                    taken = if consumed < 2 {
                        2
                    } else {
                        consumed
                    };
                }
            } else if b == FS {
                if left > 1 {
                    taken = 2;
                }
            } else if b == 0x0A {
                self.print_line();
            } else if b == 0x0D {
            } else if b == 0x0C {
                self.cut_paper();
            } else {
                self.buffer.push(b);
            }
            proof {
                let (next, answer, n) = step_effect(before, held, rest);
                assert(self@.buffer =~= next.buffer);
                assert(self@ == next);
                assert(opt_bytes(response) == answer);
                assert(taken == n);
                if taken < left {
                    assert(after(rest, n) =~= data@.skip(i + taken));
                } else {
                    assert(after(rest, n) =~= data@.skip(len as int));
                }
            }
            i = if taken >= left {
                len
            } else {
                i + taken
            };
        }
        assert(data@.skip(len as int) =~= Seq::<u8>::empty());
        response
    }

    /// Handle DLE (real-time) commands
    fn handle_dle_command(&self, cmd: u8) -> (response: Option<Vec<u8>>)
        ensures
            opt_bytes(response) == dle_response(self@, cmd),
    {
        if cmd == 0x04 {
            Some(one_byte(self.get_status_byte(1)))
        } else if cmd == 0x05 {
            Some(one_byte(STATUS_ONLINE))
        } else {
            None
        }
    }

    /// Handle the ESC command that starts at `data[at]`; returns the number
    /// of bytes it takes.
    fn handle_esc_command(&mut self, data: &[u8], at: usize) -> (consumed: usize)
        requires
            at < data@.len(),
        ensures
            final(self)@ == esc_effect(old(self)@, data@.skip(at as int)).0,
            consumed == esc_effect(old(self)@, data@.skip(at as int)).1,
            1 <= consumed <= 5,
    {
        let ghost rest = data@.skip(at as int);
        let left = data.len() - at;
        if left < 2 {
            return 1;
        }
        let cmd = data[at + 1];
        assert(rest[1] == cmd);
        if left >= 3 {
            assert(rest[2] == data@[at + 2]);
        }
        if cmd == 0x40 {
            self.initialize();
            2
        } else if cmd == 0x21 {
            if left >= 3 {
                self.set_print_mode(data[at + 2]);
                3
            } else {
                2
            }
        } else if cmd == 0x45 {
            if left >= 3 {
                self.bold = data[at + 2] != 0;
                3
            } else {
                2
            }
        } else if cmd == 0x2D {
            if left >= 3 {
                self.underline = data[at + 2];
                3
            } else {
                2
            }
        } else if cmd == 0x61 {
            if left >= 3 {
                self.justify = data[at + 2] % 3;
                3
            } else {
                2
            }
        } else if cmd == 0x64 {
            if left >= 3 {
                let lines = data[at + 2];
                let mut k: u8 = 0;
                while k < lines
                    invariant
                        k <= lines,
                        self@ == printed_lines(old(self)@, k as nat),
                    decreases lines - k,
                {
                    self.print_line();
                    k += 1;
                }
                3
            } else {
                2
            }
        } else if cmd == 0x70 {
            if left >= 5 {
                5
            } else {
                2
            }
        } else if cmd == 0x74 {
            if left >= 3 {
                self.charset = data[at + 2];
                3
            } else {
                2
            }
        } else if cmd == 0x52 {
            if left >= 3 {
                3
            } else {
                2
            }
        } else if cmd == 0x63 {
            if left >= 4 {
                4
            } else {
                2
            }
        } else {
            2
        }
    }

    /// Handle the GS command that starts at `data[at]`; returns the number
    /// of bytes it takes and its answer, if it has one.
    fn handle_gs_command(&mut self, data: &[u8], at: usize) -> (res: (usize, Option<Vec<u8>>))
        requires
            at < data@.len(),
        ensures
            final(self)@ == gs_effect(old(self)@, data@.skip(at as int)).0,
            res.0 == gs_effect(old(self)@, data@.skip(at as int)).1,
            opt_bytes(res.1) == gs_effect(old(self)@, data@.skip(at as int)).2,
            1 <= res.0 <= 6,
    {
        let ghost rest = data@.skip(at as int);
        let left = data.len() - at;
        if left < 2 {
            return (1, None);
        }
        let cmd = data[at + 1];
        assert(rest[1] == cmd);
        if left >= 3 {
            assert(rest[2] == data@[at + 2]);
        }
        if cmd == 0x56 {
            if left >= 3 {
                self.cut_paper();
                (3, None)
            } else {
                (2, None)
            }
        } else if cmd == 0x21 {
            if left >= 3 {
                let n = data[at + 2];
                self.double_width = (n & 0x10) != 0;
                self.double_height = (n & 0x01) != 0;
                (3, None)
            } else {
                (2, None)
            }
        } else if cmd == 0x72 {
            if left >= 3 {
                let status = self.get_status_byte(data[at + 2]);
                (3, Some(one_byte(status)))
            } else {
                (2, None)
            }
        } else if cmd == 0x61 {
            if left >= 3 {
                (3, None)
            } else {
                (2, None)
            }
        } else if cmd == 0x28 {
            if left >= 6 && data[at + 2] == 0x41 {
                (6, None)
            } else {
                (2, None)
            }
        } else if cmd == 0x6B {
            (4, None)
        } else {
            (2, None)
        }
    }

    /// Initialize printer to default state
    fn initialize(&mut self)
        ensures
            final(self)@ == initialized(old(self)@),
    {
        self.buffer.clear();
        self.charset = 0;
        self.bold = false;
        self.underline = 0;
        self.double_width = false;
        self.double_height = false;
        self.justify = 0;
        self.has_error = false;
    }

    /// Set print mode from ESC ! command
    fn set_print_mode(&mut self, mode: u8)
        ensures
            final(self)@ == with_print_mode(old(self)@, mode),
    {
        self.bold = (mode & 0x08) != 0;
        self.double_height = (mode & 0x10) != 0;
        self.double_width = (mode & 0x20) != 0;
        self.underline = if (mode & 0x80) != 0 {
            1
        } else {
            0
        };
    }

    /// Simulate printing a line
    fn print_line(&mut self)
        ensures
            final(self)@ == printed_line(old(self)@),
    {
        self.buffer.clear();
        self.lines_printed = self.lines_printed.wrapping_add(1);
    }

    /// Simulate paper cut: the buffer is flushed as a line.
    fn cut_paper(&mut self)
        ensures
            final(self)@ == printed_line(old(self)@),
    {
        self.print_line();
    }

    /// Get status byte for status queries
    fn get_status_byte(&self, status_type: u8) -> (status: u8)
        ensures
            status == status_byte(self@, status_type),
    {
        if status_type == 1 {
            if !self.paper_present && self.has_error {
                0x60
            } else if !self.paper_present {
                0x20
            } else if self.has_error {
                0x40
            } else {
                0x00
            }
        } else if status_type == 2 {
            if !self.paper_present {
                0x04
            } else {
                0x00
            }
        } else if status_type == 3 {
            if self.has_error {
                0x08
            } else {
                0x00
            }
        } else if status_type == 4 {
            if self.paper_present {
                STATUS_PAPER_PRESENT
            } else {
                STATUS_PAPER_END
            }
        } else {
            0x00
        }
    }

    /// Get emulator statistics: bytes received and lines printed.
    pub fn get_stats(&self) -> (stats: (u32, u32))
        ensures
            stats == (self@.bytes_received, self@.lines_printed),
    {
        (self.bytes_received, self.lines_printed)
    }

    /// Set paper present state (for testing paper-out scenarios)
    pub fn set_paper_present(&mut self, present: bool)
        ensures
            final(self)@ == (PrinterView { paper_present: present, ..old(self)@ }),
    {
        self.paper_present = present;
    }

    /// Set error state
    pub fn set_error(&mut self, error: bool)
        ensures
            final(self)@ == (PrinterView { has_error: error, ..old(self)@ }),
    {
        self.has_error = error;
    }
}

impl Default for EscPosEmulator {
    fn default() -> (e: EscPosEmulator)
        ensures
            e@ == switched_on(),
    {
        EscPosEmulator::new()
    }
}

/// Simple stateless processing (creates emulator per call)
pub fn process_escpos_data(data: &[u8]) -> (response: Option<Vec<u8>>)
    ensures
        opt_bytes(response) == process_effect(switched_on(), data@).1,
{
    let mut emulator = EscPosEmulator::new();
    emulator.process(data)
}

/// A run of `n` spaces.
pub open spec fn spaces(n: nat) -> Seq<char> {
    Seq::new(n, |i: int| ' ')
}

/// The number of spaces that fill a text of `chars` characters up to
/// `width`.
pub open spec fn padding(width: nat, chars: nat) -> nat {
    if width > chars {
        (width - chars) as nat
    } else {
        0
    }
}

/// Format a text line for ESC/POS printing: a text of `width` bytes or more
/// is cut to its first `width` bytes; a shorter one is filled up with spaces
/// to `width` characters. A cut must not fall inside a character.
pub fn format_receipt_line(text: &str, width: usize) -> (line: String)
    requires
        text.spec_bytes().len() >= width ==> text.is_char_boundary(width),
    ensures
        text.spec_bytes().len() >= width ==> encode_utf8(line@) == text.spec_bytes().subrange(
            0,
            width as int,
        ),
        text.spec_bytes().len() < width ==> line@ == text@ + spaces(
            padding(width as nat, text@.len()),
        ),
{
    if text.as_bytes().len() >= width {
        let (head, _) = text.split_at(width);
        let line = String::from_str(head);
        assert(encode_utf8(line@) == head.spec_bytes());
        line
    } else {
        let chars = text.unicode_len();
        let mut line = String::from_str(text);
        let mut k: usize = chars;
        assert(line@ =~= text@ + spaces(0));
        while k < width
            invariant
                chars <= k,
                k <= width || k == chars,
                chars == text@.len(),
                line@ == text@ + spaces((k - chars) as nat),
            decreases width - k,
        {
            line.append(" ");
            proof {
                reveal_strlit(" ");
                assert(line@ =~= text@ + spaces((k + 1 - chars) as nat));
            }
            k += 1;
        }
        line
    }
}

/// Line feeds touch the buffer and the line count, and nothing else.
pub proof fn lemma_feeding_keeps_the_rest(p: PrinterView, n: nat)
    ensures
        printed_lines(p, n).bytes_received == p.bytes_received,
        printed_lines(p, n).paper_present == p.paper_present,
        printed_lines(p, n).drawer_open == p.drawer_open,
        printed_lines(p, n).lines_printed == wrapped(p.lines_printed, n),
    decreases n,
{
    if n > 0 {
        lemma_feeding_keeps_the_rest(p, (n - 1) as nat);
    }
}

/// Data never changes what the printer's surroundings decide: commands leave
/// the count of received bytes, the paper and the drawer as they are.
pub proof fn lemma_commands_keep_the_surroundings(
    p: PrinterView,
    response: Option<Seq<u8>>,
    rest: Seq<u8>,
)
    ensures
        run_effect(p, response, rest).0.bytes_received == p.bytes_received,
        run_effect(p, response, rest).0.paper_present == p.paper_present,
        run_effect(p, response, rest).0.drawer_open == p.drawer_open,
    decreases rest.len(),
{
    if rest.len() > 0 {
        let (next, answer, n) = step_effect(p, response, rest);
        if rest.len() >= 3 {
            lemma_feeding_keeps_the_rest(p, rest[2] as nat);
        }
        assert(next.bytes_received == p.bytes_received);
        assert(next.paper_present == p.paper_present);
        assert(next.drawer_open == p.drawer_open);
        assert(n >= 1);
        lemma_commands_keep_the_surroundings(next, answer, after(rest, n));
    }
}

/// Every byte handed to the printer is counted, whatever it means: the
/// count grows by the length of the data, modulo 2^32.
pub proof fn lemma_every_byte_is_counted(p: PrinterView, data: Seq<u8>)
    ensures
        process_effect(p, data).0.bytes_received == wrapped(p.bytes_received, data.len()),
        process_effect(p, data).0.paper_present == p.paper_present,
{
    lemma_commands_keep_the_surroundings(
        PrinterView { bytes_received: wrapped(p.bytes_received, data.len()), ..p },
        None,
        data,
    );
}

} // verus!
