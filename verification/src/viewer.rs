//! The decision core of the interactive viewer: a list of certificates
//! with one selected, a scroll position into the selected certificate's
//! report, and an exit flag. Every key and mouse decision is a pure state
//! transition here; drawing and event polling stay outside the library.

use vstd::prelude::*;
use vstd::string::StringSliceAdditionalSpecFns;

verus! {

/// A key press, reduced to what the viewer reacts to.
pub enum KeyInput {
    /// A plain character key.
    Char(char),
    /// A character key with the control modifier held.
    Ctrl(char),
    /// The up arrow.
    Up,
    /// The down arrow.
    Down,
    /// Any other key.
    Other,
}

/// A mouse event, reduced to what the viewer reacts to.
pub enum MouseInput {
    /// The wheel scrolled up.
    ScrollUp,
    /// The wheel scrolled down.
    ScrollDown,
    /// Any other mouse event.
    Other,
}

/// The viewer's state: the line count of each certificate's report, which
/// certificate is selected, how far the details pane is scrolled, and
/// whether the viewer should exit.
pub struct ViewerState {
    /// The number of report lines of each certificate, in chain order.
    pub cert_lines: Vec<usize>,
    /// The index of the selected certificate.
    pub selected: usize,
    /// The scroll offset into the selected certificate's report.
    pub details_scroll: usize,
    /// Whether the viewer should exit.
    pub exit: bool,
}

impl ViewerState {
    /// The state is well formed: there is at least one certificate and the
    /// selection points at one of them.
    pub open spec fn wf(self) -> bool {
        self.cert_lines@.len() > 0 && self.selected < self.cert_lines@.len()
    }

    /// A fresh viewer over a nonempty chain: the first certificate
    /// selected, the details pane unscrolled, not exiting.
    pub fn new(cert_lines: Vec<usize>) -> (r: ViewerState)
        requires
            cert_lines@.len() > 0,
        ensures
            r.wf(),
            r.cert_lines == cert_lines,
            r.selected == 0,
            r.details_scroll == 0,
            !r.exit,
    {
        ViewerState { cert_lines, selected: 0, details_scroll: 0, exit: false }
    }

    /// The state after one key press: `q` and control-`c` exit; `k` and
    /// `j` move the selection up and down, clamped to the list, and reset
    /// the scroll; the arrows scroll the details pane, clamped to the
    /// selected report's last line.
    pub open spec fn spec_handle_key(s: ViewerState, ev: KeyInput) -> ViewerState {
        match ev {
            KeyInput::Char(c) => if c == 'q' {
                ViewerState { exit: true, ..s }
            } else if c == 'k' {
                ViewerState {
                    selected: if s.selected > 0 {
                        (s.selected - 1) as usize
                    } else {
                        0
                    },
                    details_scroll: 0,
                    ..s
                }
            } else if c == 'j' {
                ViewerState {
                    selected: if s.selected + 1 < s.cert_lines@.len() {
                        (s.selected + 1) as usize
                    } else {
                        (s.cert_lines@.len() - 1) as usize
                    },
                    details_scroll: 0,
                    ..s
                }
            } else {
                s
            },
            KeyInput::Ctrl(c) => if c == 'c' {
                ViewerState { exit: true, ..s }
            } else {
                s
            },
            KeyInput::Up => ViewerState {
                details_scroll: if s.details_scroll > 0 {
                    (s.details_scroll - 1) as usize
                } else {
                    0
                },
                ..s
            },
            KeyInput::Down => ViewerState {
                details_scroll: ({
                    let last = if s.cert_lines@[s.selected as int] > 0 {
                        (s.cert_lines@[s.selected as int] - 1) as usize
                    } else {
                        0
                    };
                    if s.details_scroll >= last {
                        last
                    } else {
                        (s.details_scroll + 1) as usize
                    }
                }),
                ..s
            },
            KeyInput::Other => s,
        }
    }

    /// Applies one key press.
    pub fn handle_key_event(&mut self, ev: KeyInput)
        requires
            old(self).wf(),
        ensures
            *final(self) == ViewerState::spec_handle_key(*old(self), ev),
            final(self).wf(),
    {
        match ev {
            KeyInput::Char(c) => {
                if c == 'q' {
                    self.exit = true;
                } else if c == 'k' {
                    if self.selected > 0 {
                        self.selected = self.selected - 1;
                    } else {
                        self.selected = 0;
                    }
                    self.details_scroll = 0;
                } else if c == 'j' {
                    let max = self.cert_lines.len() - 1;
                    if self.selected < max {
                        self.selected = self.selected + 1;
                    } else {
                        self.selected = max;
                    }
                    self.details_scroll = 0;
                }
            },
            KeyInput::Ctrl(c) => {
                if c == 'c' {
                    self.exit = true;
                }
            },
            KeyInput::Up => {
                if self.details_scroll > 0 {
                    self.details_scroll = self.details_scroll - 1;
                }
            },
            KeyInput::Down => {
                let lines = self.cert_lines[self.selected];
                let last = if lines > 0 {
                    lines - 1
                } else {
                    0
                };
                if self.details_scroll >= last {
                    self.details_scroll = last;
                } else {
                    self.details_scroll = self.details_scroll + 1;
                }
            },
            KeyInput::Other => {},
        }
    }

    /// The state after one mouse event: the wheel scrolls the details pane
    /// one line, saturating at either end.
    pub open spec fn spec_handle_mouse(s: ViewerState, ev: MouseInput) -> ViewerState {
        match ev {
            MouseInput::ScrollUp => ViewerState {
                details_scroll: if s.details_scroll > 0 {
                    (s.details_scroll - 1) as usize
                } else {
                    0
                },
                ..s
            },
            MouseInput::ScrollDown => ViewerState {
                details_scroll: if s.details_scroll < usize::MAX {
                    (s.details_scroll + 1) as usize
                } else {
                    usize::MAX
                },
                ..s
            },
            MouseInput::Other => s,
        }
    }

    /// Applies one mouse event.
    pub fn handle_mouse_event(&mut self, ev: MouseInput)
        requires
            old(self).wf(),
        ensures
            *final(self) == ViewerState::spec_handle_mouse(*old(self), ev),
            final(self).wf(),
    {
        match ev {
            MouseInput::ScrollUp => {
                if self.details_scroll > 0 {
                    self.details_scroll = self.details_scroll - 1;
                }
            },
            MouseInput::ScrollDown => {
                if self.details_scroll < usize::MAX {
                    self.details_scroll = self.details_scroll + 1;
                }
            },
            MouseInput::Other => {},
        }
    }
}

/// The number of newline bytes in the text.
pub open spec fn newline_count(bs: Seq<u8>) -> nat
    decreases bs.len(),
{
    if bs.len() == 0 {
        0
    } else {
        newline_count(bs.drop_last()) + (if bs.last() == 0x0au8 {
            1nat
        } else {
            0nat
        })
    }
}

/// How many lines a text displays as: its newline count, plus one for a
/// final line without a terminator.
pub open spec fn spec_line_count(bs: Seq<u8>) -> nat {
    newline_count(bs) + (if bs.len() > 0 && bs.last() != 0x0au8 {
        1nat
    } else {
        0nat
    })
}

/// Counts the display lines of a report, for the viewer's scroll bound.
pub fn count_report_lines(s: &str) -> (n: usize)
    ensures
        n == spec_line_count(s.spec_bytes()),
{
    let bytes = s.as_bytes();
    let len = bytes.len();
    let mut nl: usize = 0;
    let mut i: usize = 0;
    proof {
        assert(bytes@.take(0) =~= Seq::<u8>::empty());
    }
    while i < len
        invariant
            i <= len,
            len == bytes@.len(),
            bytes@ == s.spec_bytes(),
            nl == newline_count(bytes@.take(i as int)),
            nl <= i,
        decreases len - i,
    {
        if bytes[i] == 0x0a {
            nl = nl + 1;
        }
        proof {
            let cur = bytes@.take(i + 1);
            assert(cur.drop_last() =~= bytes@.take(i as int));
            assert(cur.last() == bytes@[i as int]);
        }
        i += 1;
    }
    proof {
        assert(bytes@.take(len as int) =~= bytes@);
    }
    if len > 0 && bytes[len - 1] != 0x0a {
        proof {
            lemma_newline_count_le(bytes@.drop_last());
            assert(bytes@.last() == bytes@[len - 1]);
        }
        nl + 1
    } else {
        nl
    }
}

/// A text has no more newlines than bytes.
proof fn lemma_newline_count_le(bs: Seq<u8>)
    ensures
        newline_count(bs) <= bs.len(),
    decreases bs.len(),
{
    if bs.len() > 0 {
        lemma_newline_count_le(bs.drop_last());
    }
}

} // verus!
