//! The logic of a Haribote OS task runner: the system calls that a task makes
//! and the resources that they manage. The host performs what only it can do
//! (printing, windows on screen, files, the clock, sounds) and hands the
//! results back.

use vstd::prelude::*;
use crate::haribote::file::{FileManager, Whence};
use crate::haribote::lang::{JisString, LangMode};
use crate::haribote::malloc::SimpleAllocator;
use crate::haribote::timer::TimerManager;
use crate::haribote::window::{HariWindow, Point, Redraw, Size, WindowId};
use crate::hrb::{is_header_of, le32, spec_signature, HrbExecutable, MINIMAL_BIN_SIZE};
use crate::ir86::types::Offset32;
use crate::ume86::state::{read8_of, RtReg, RtReg8};
use crate::ume86::ume::{Exception, STEP_LIMIT, UME};

pub mod file;
pub mod lang;
pub mod malloc;
pub mod timer;
pub mod window;

verus! {

/// Generic Handle type
#[derive(Debug, Clone, Copy, PartialEq, Eq, Structural)]
pub struct Handle(pub u32);

/// What the task is doing.
#[derive(Debug, Clone, Copy, PartialEq, Eq, Structural)]
pub enum AppState {
    /// Running normally
    Running,
    /// Waiting for a key event (non-blocking)
    GetKey(bool),
    /// Waiting for a key event (blocking)
    WaitKey(bool),
}

impl Default for AppState {
    /// Running.
    fn default() -> (r: Self)
        ensures
            r == AppState::Running,
    {
        AppState::Running
    }
}

/// How a round of the task ends.
#[derive(Debug, Clone, Copy, PartialEq, Eq, Structural)]
pub enum ExitStatus {
    Continue,
    Exit,
    Wait(i32),
}

/// The identifier of this system, "HDE ".
pub const OS_ID: u32 = 0x20454448;

/// The version of this system.
pub const OS_VER: u32 = 0;

/// What is added to a timer's code in the events that it sends.
pub const TIMER_ID_BIAS: u32 = 0x0001_0000;

/// How many micro operations a unit of the time stamp counter stands for.
pub const MAX_STEP: isize = 1_000_000;

/// What the host does for the task.
pub enum HostCall {
    /// Print the character with this code.
    PutChar(u8),
    /// Print these bytes, where they are UTF-8 text.
    PutStr(Vec<u8>),
    /// Draw these pixels in a window.
    Redraw(Redraw),
    /// Send the event `code` after `delay` milliseconds.
    ScheduleEvent { delay: u32, code: i32 },
    /// Play a sound of this frequency.
    PlaySound(u32),
    /// Report a system call that this system does not know.
    Unsupported(u32),
}

/// What a system call leaves to the host.
pub enum Syscall {
    /// The call is done: perform the calls in order, and go on as the
    /// status says.
    Done(ExitStatus, Vec<HostCall>),
    /// Open a window with this title, of the size `HariWindow::host_size`
    /// gives for `size`, then hand its identifier to `App::open_window`.
    OpenWindow { title: Vec<u8>, size: Size },
    /// Read the file with this name, then hand its contents to `App::open_file`.
    OpenFile(Vec<u8>),
    /// Read the clock, then hand its value in units of 10 ms to `App::time_count`.
    TimeCount,
}

/// What stopped a run of the emulator.
#[derive(Debug, Clone, Copy, PartialEq, Eq, Structural)]
pub enum RunEvent {
    /// The emulator ran its budget of micro operations.
    Paused,
    /// The task made a system call, for `App::syscall`.
    SystemCall,
    /// The task reads the time stamp counter, for `App::read_tsc`.
    ReadTsc,
}

/// The first index from `i` on where `mem` holds a zero; its length where
/// there is none.
pub open spec fn cstr_end(mem: Seq<u8>, i: int) -> int
    decreases mem.len() - i,
{
    if i >= mem.len() || i < 0 {
        mem.len() as int
    } else if mem[i] == 0 {
        i
    } else {
        cstr_end(mem, i + 1)
    }
}

/// The string that `get_cstr` finds at `addr` of `mem` holds no zero, and
/// a zero ends it where it ends inside `mem`.
pub proof fn lemma_cstr_end(mem: Seq<u8>, addr: int)
    requires
        0 <= addr <= mem.len(),
    ensures
        addr <= cstr_end(mem, addr) <= mem.len(),
        forall|i: int| addr <= i < cstr_end(mem, addr) ==> #[trigger] mem[i] != 0,
        cstr_end(mem, addr) < mem.len() ==> mem[cstr_end(mem, addr)] == 0,
    decreases mem.len() - addr,
{
    if addr < mem.len() && mem[addr] != 0 {
        lemma_cstr_end(mem, addr + 1);
    }
}

/// The data segment of the executable `b` with header `h`: the stack of
/// `esp` bytes, the data from `start_data`, then zeros, cut or padded to
/// `size_of_ds` bytes.
pub open spec fn data_segment(b: Seq<u8>, h: HrbExecutable) -> Seq<u8> {
    Seq::new(
        h.size_of_ds as nat,
        |i: int| {
            if i < h.esp {
                0u8
            } else if i < h.esp + h.size_of_data {
                b[h.start_data + i - h.esp]
            } else {
                0u8
            }
        },
    )
}

/// Whether the segments that the header of `b` names lie in `b`.
pub open spec fn segments_fit(b: Seq<u8>) -> bool {
    b.len() >= MINIMAL_BIN_SIZE && b.subrange(4, 8) == spec_signature() ==> le32(b, 20) + le32(b, 16) <= b.len()
}

/// The key code that a keyboard event `code` gives the task.
pub open spec fn key_code(code: i32, is_ex: bool) -> u32 {
    if code == -1 {
        u32::MAX
    } else if code as u32 > TIMER_ID_BIAS {
        (code as u32 - TIMER_ID_BIAS) as u32
    } else if is_ex {
        code as u32
    } else {
        let c = (code as u32) % 0x100;
        if c == 0x84 {
            0x34
        } else if c == 0x85 {
            0x36
        } else if c == 0x86 {
            0x38
        } else if c == 0x87 {
            0x32
        } else if c >= 0x80 {
            u32::MAX
        } else {
            c
        }
    }
}

/// A task of Haribote OS: its emulator and the resources that its system
/// calls manage.
pub struct App {
    pub state: AppState,
    pub max_step: isize,
    pub lang_mode: LangMode,
    pub title_bar_height: u32,
    pub emulator: UME,
    pub cmdline: Vec<u8>,
    pub tsc_raw: u64,
    pub tsc_count: u64,
    pub hankaku_font: Vec<u8>,
    pub japanese_font: Vec<u8>,
    pub allocator: SimpleAllocator,
    pub files: FileManager,
    pub timers: TimerManager,
    pub windows: Vec<HariWindow>,
}

impl App {
    /// The emulator and the file manager are consistent, and every window's
    /// buffer lies in the data segment.
    pub open spec fn wf(&self) -> bool {
        &&& self.emulator.wf()
        &&& self.files.wf()
        &&& forall|i: int| 0 <= i < self.windows.len()
            ==> #[trigger] self.windows@[i].wf(self.emulator.mem().len() as nat)
    }

    /// The value of a register of the task.
    pub open spec fn reg(&self, r: RtReg) -> u32 {
        self.emulator.reg(r)
    }

    /// The task of the executable `binary`, started with the command line
    /// `cmdline`, whose windows show under a host title bar of
    /// `title_bar_height`, with the glyphs of `hankaku_font` and
    /// `japanese_font` (strings are Shift_JIS where the latter is not
    /// empty); `None` where `binary` is no executable.
    pub fn instantiate(
        binary: &[u8],
        cmdline: &[u8],
        title_bar_height: u32,
        hankaku_font: Vec<u8>,
        japanese_font: Vec<u8>,
    ) -> (r: Option<Self>)
        requires
            segments_fit(binary@),
        ensures
            match r {
                Some(app) => {
                    &&& binary.len() >= MINIMAL_BIN_SIZE
                    &&& binary@.subrange(4, 8) == spec_signature()
                    &&& app.wf()
                    &&& app.state == AppState::Running
                    &&& app.max_step == MAX_STEP
                    &&& app.lang_mode == (if japanese_font.len() == 0 { LangMode::Ascii } else { LangMode::ShiftJIS })
                    &&& app.title_bar_height == title_bar_height
                    &&& app.cmdline@ == cmdline@
                    &&& app.hankaku_font@ == hankaku_font@
                    &&& app.japanese_font@ == japanese_font@
                    &&& app.windows.len() == 0
                    &&& app.tsc_raw == 0
                    &&& app.tsc_count == 0
                    &&& exists|h: HrbExecutable| {
                        &&& #[trigger] is_header_of(h, binary@)
                        &&& app.emulator.mem() == data_segment(binary@, h)
                        &&& app.emulator.spec_tracer().spec_code() == binary@.subrange(0, h.start_data as int)
                        &&& app.reg(RtReg::ESP) == h.esp
                    }
                },
                None => binary.len() < MINIMAL_BIN_SIZE || binary@.subrange(4, 8) != spec_signature(),
            },
    {
        let hrb = match HrbExecutable::identify(binary) {
            Some(h) => h,
            None => return None,
        };
        let start_data = hrb.start_data as usize;
        let size_of_data = hrb.size_of_data as usize;
        let size_of_ds = hrb.size_of_ds as usize;
        let esp = hrb.esp as usize;
        let code = copy_range(binary, 0, start_data);
        let mut data: Vec<u8> = Vec::new();
        let mut i: usize = 0;
        while i < size_of_ds
            invariant
                i <= size_of_ds,
                size_of_ds == hrb.size_of_ds,
                esp == hrb.esp,
                start_data == hrb.start_data,
                size_of_data == hrb.size_of_data,
                start_data + size_of_data <= binary.len(),
                data@.len() == i,
                forall|j: int| 0 <= j < i ==> #[trigger] data@[j] == data_segment(binary@, hrb)[j],
            decreases size_of_ds - i,
        {
            let b: u8 = if i < esp {
                0
            } else if i - esp < size_of_data {
                binary[start_data + (i - esp)]
            } else {
                0
            };
            data.push(b);
            i += 1;
        }
        assert(data@ =~= data_segment(binary@, hrb));
        let emulator = UME::new(code, data, Offset32(0), Offset32(hrb.entry_point()), Offset32(hrb.esp));
        let lang_mode = if japanese_font.len() == 0 {
            LangMode::Ascii
        } else {
            LangMode::ShiftJIS
        };
        let app = App {
            state: AppState::Running,
            max_step: MAX_STEP,
            lang_mode,
            title_bar_height,
            emulator,
            cmdline: copy_range(cmdline, 0, cmdline.len()),
            tsc_raw: 0,
            tsc_count: 0,
            hankaku_font,
            japanese_font,
            allocator: SimpleAllocator::new(),
            files: FileManager::new(),
            timers: TimerManager::new(),
            windows: Vec::new(),
        };
        assert(cmdline@.subrange(0, cmdline@.len() as int) =~= cmdline@);
        Some(app)
    }

    /// Returns the adjusted keycode based on the input code and whether it's
    /// an extended key; the code of a timer's event marks the timer as fired.
    pub fn adjust_keycode(&mut self, code: i32, is_ex: bool) -> (r: u32)
        ensures
            r == key_code(code, is_ex),
            code != -1 && code as u32 > TIMER_ID_BIAS ==> {
                &&& final(self).timers.next_handle == old(self).timers.next_handle
                &&& (forall|h: u32| !#[trigger] crate::haribote::timer::fires(old(self).timers.timers@, h, code as u32))
                    ==> final(self).timers.timers@ == old(self).timers.timers@
                &&& forall|h: u32|
                    #[trigger] crate::haribote::timer::is_first_firing(old(self).timers.timers@, code as u32, h)
                    ==> final(self).timers.timers@ == old(self).timers.timers@.insert(
                        h,
                        crate::haribote::timer::Timer { value: code as u32, is_active: false },
                    )
                &&& *final(self) == (App { timers: final(self).timers, ..*old(self) })
            },
            !(code != -1 && code as u32 > TIMER_ID_BIAS) ==> *final(self) == *old(self),
    {
        if code == -1 {
            return u32::MAX;
        }
        let code = code as u32;
        if code > TIMER_ID_BIAS {
            self.timers.ack(code);
            code - TIMER_ID_BIAS
        } else if is_ex {
            code
        } else {
            let low = code & 0xff;
            assert(low == code % 0x100) by (bit_vector)
                requires
                    low == code & 0xff,
            ;
            match low {
                0x84 => 0x34,
                0x85 => 0x36,
                0x86 => 0x38,
                0x87 => 0x32,
                0x80..=0xff => u32::MAX,
                _ => low,
            }
        }
    }

    /// Whether the task waits for a key before it runs on: where it does, the
    /// host fetches a keyboard event (waiting for one where this is `Some(true)`)
    /// and hands it to `take_key`.
    pub fn key_request(&self) -> (r: Option<bool>)
        ensures
            r == (match self.state {
                AppState::Running => None,
                AppState::GetKey(_) => Some(false),
                AppState::WaitKey(_) => Some(true),
            }),
    {
        match self.state {
            AppState::Running => None,
            AppState::GetKey(_) => Some(false),
            AppState::WaitKey(_) => Some(true),
        }
    }

    /// Hands the task the keyboard event `event` that it waits for: its key
    /// code goes to EAX and the task runs on; where it waits for a key to be
    /// pressed and none was, it waits on for 10 ms.
    pub fn take_key(&mut self, event: i32) -> (r: Option<ExitStatus>)
        requires
            old(self).wf(),
        ensures
            final(self).wf(),
            final(self).emulator.mem() == old(self).emulator.mem(),
            match old(self).state {
                AppState::Running => r is None && *final(self) == *old(self),
                AppState::GetKey(ex) => {
                    &&& r is None
                    &&& final(self).state == AppState::Running
                    &&& final(self).reg(RtReg::EAX) == key_code(event, ex)
                },
                AppState::WaitKey(ex) => if key_code(event, ex) == u32::MAX {
                    &&& r == Some(ExitStatus::Wait(10))
                    &&& final(self).state == old(self).state
                    &&& final(self).emulator == old(self).emulator
                } else {
                    &&& r is None
                    &&& final(self).state == AppState::Running
                    &&& final(self).reg(RtReg::EAX) == key_code(event, ex)
                },
            },
    {
        match self.state {
            AppState::Running => None,
            AppState::GetKey(is_ex) => {
                let key = self.adjust_keycode(event, is_ex);
                self.set_reg(RtReg::EAX, key);
                self.state = AppState::Running;
                None
            },
            AppState::WaitKey(is_ex) => {
                let key = self.adjust_keycode(event, is_ex);
                if key == u32::MAX {
                    Some(ExitStatus::Wait(10))
                } else {
                    self.set_reg(RtReg::EAX, key);
                    self.state = AppState::Running;
                    None
                }
            },
        }
    }

    /// Runs the emulator until its budget ends or the task calls for the host.
    pub fn execute(&mut self) -> (r: Result<RunEvent, Exception>)
        requires
            old(self).wf(),
        ensures
            final(self).wf(),
            final(self).emulator.mem().len() == old(self).emulator.mem().len(),
            *final(self) == (App { emulator: final(self).emulator, ..*old(self) }),
            r == Ok::<RunEvent, Exception>(RunEvent::Paused) ==> UME::reached(
                old(self).emulator,
                final(self).emulator,
                STEP_LIMIT as nat,
            ),
            r != Ok::<RunEvent, Exception>(RunEvent::Paused) ==> exists|k: nat, mid: UME, last: UME| {
                &&& k < STEP_LIMIT
                &&& #[trigger] UME::reached(old(self).emulator, mid, k)
                &&& #[trigger] UME::step(mid, last, Err(Self::stop_of(r)))
                &&& final(self).emulator.mem() == last.mem()
            },
    {
        let r = self.emulator.execute();
        match r {
            Ok(()) => Ok(RunEvent::Paused),
            Err(Exception::Swi(64)) => Ok(RunEvent::SystemCall),
            Err(Exception::RdTsc) => Ok(RunEvent::ReadTsc),
            Err(e) => Err(e),
        }
    }

    /// The exception that stopped the emulator where `execute` returns `r`.
    pub open spec fn stop_of(r: Result<RunEvent, Exception>) -> Exception {
        match r {
            Ok(RunEvent::SystemCall) => Exception::Swi(64),
            Ok(RunEvent::ReadTsc) => Exception::RdTsc,
            Ok(RunEvent::Paused) => Exception::OutOfCode,
            Err(e) => e,
        }
    }

    /// The time stamp counter that the task reads: the ticks since the last
    /// reading, `tsc_raw` being the host's tick now, count `max_step` each;
    /// EDX:EAX gets the count, and the task goes on past the instruction.
    pub fn read_tsc(&mut self, tsc_raw: u64)
        requires
            old(self).wf(),
        ensures
            final(self).wf(),
            final(self).emulator.mem() == old(self).emulator.mem(),
            final(self).tsc_raw == tsc_raw,
            final(self).tsc_count == old(self).tsc_count.wrapping_add(
                tsc_raw.wrapping_sub(old(self).tsc_raw).wrapping_mul(old(self).max_step as u64),
            ),
            final(self).reg(RtReg::EAX) == final(self).tsc_count as u32,
            final(self).reg(RtReg::EDX) == (final(self).tsc_count >> 32u64) as u32,
            final(self).emulator.spec_tracer().spec_upc() == old(self).emulator.spec_tracer().spec_upc().wrapping_add(1),
    {
        let tsc_delta = tsc_raw.wrapping_sub(self.tsc_raw);
        self.tsc_raw = tsc_raw;
        let tsc_delta = tsc_delta.wrapping_mul(self.max_step as u64);
        let tsc = self.tsc_count.wrapping_add(tsc_delta);
        self.tsc_count = tsc;
        self.set_reg(RtReg::EAX, tsc as u32);
        let ghost mid = self.emulator.spec_state()@;
        self.set_reg(RtReg::EDX, (tsc >> 32u64) as u32);
        assert(self.emulator.spec_state()@.regs[0] == mid.regs[0]);
        self.emulator.resume_next();
    }

    /// The task goes on past its system call, which ended with `status`:
    /// `None` where it runs on, the status where the round ends.
    pub fn finish_syscall(&mut self, status: ExitStatus) -> (r: Option<ExitStatus>)
        requires
            old(self).wf(),
        ensures
            final(self).wf(),
            final(self).emulator.mem() == old(self).emulator.mem(),
            final(self).emulator.spec_tracer().spec_upc() == old(self).emulator.spec_tracer().spec_upc().wrapping_add(1),
            r == (if status == ExitStatus::Continue { None } else { Some(status) }),
    {
        self.emulator.resume_next();
        match status {
            ExitStatus::Continue => None,
            _ => Some(status),
        }
    }

    /// Closes the task's windows; returns the windows for the host to close.
    pub fn dispose(&mut self) -> (r: Vec<WindowId>)
        requires
            old(self).wf(),
        ensures
            final(self).wf(),
            final(self).windows.len() == 0,
            r@.len() == old(self).windows.len(),
            forall|i: int| 0 <= i < r@.len() ==> #[trigger] r@[i] == old(self).windows@[i].window_id,
            *final(self) == (App { windows: final(self).windows, ..*old(self) }),
    {
        let mut ids: Vec<WindowId> = Vec::new();
        let mut i: usize = 0;
        while i < self.windows.len()
            invariant
                i <= self.windows.len(),
                self.windows == old(self).windows,
                ids@.len() == i,
                forall|j: int| 0 <= j < i ==> #[trigger] ids@[j] == old(self).windows@[j].window_id,
            decreases self.windows.len() - i,
        {
            ids.push(self.windows[i].window_id);
            i += 1;
        }
        self.windows.clear();
        ids
    }

    /// The glyphs of kanji.
    pub fn japanese_font(&self) -> (r: &[u8])
        ensures
            r@ == self.japanese_font@,
    {
        self.japanese_font.as_slice()
    }

    /// The zero-terminated string at `addr` of the data segment, without its
    /// terminator; a segmentation violation where `addr` or the end of the
    /// string lies outside the segment.
    pub fn get_cstr(&self, addr: u32) -> (r: Result<JisString<'_>, Exception>)
        ensures
            ({
                let mem = self.emulator.mem();
                let end = cstr_end(mem, addr as int);
                if addr >= mem.len() {
                    r == Err::<JisString<'_>, Exception>(Exception::SegmentationViolation(Offset32(addr)))
                } else if end >= mem.len() {
                    r == Err::<JisString<'_>, Exception>(Exception::SegmentationViolation(Offset32(end as u32)))
                } else {
                    r matches Ok(s) && s.0@ == mem.subrange(addr as int, end)
                }
            }),
    {
        let data = self.emulator.data();
        let addr = addr as usize;
        if addr >= data.len() {
            return Err(Exception::SegmentationViolation(Offset32(addr as u32)));
        }
        let mut end = addr;
        while end < data.len() && data[end] != 0
            invariant
                addr <= end <= data.len(),
                cstr_end(data@, addr as int) == cstr_end(data@, end as int),
            decreases data.len() - end,
        {
            end += 1;
        }
        if end >= data.len() {
            return Err(Exception::SegmentationViolation(Offset32(end as u32)));
        }
        Ok(JisString::from_bytes(vstd::slice::slice_subrange(data, addr, end)))
    }

    /// A copy of the zero-terminated string at `addr`, as `get_cstr` finds it.
    fn cstr_bytes(&self, addr: u32) -> (r: Result<Vec<u8>, Exception>)
        ensures
            ({
                let mem = self.emulator.mem();
                let end = cstr_end(mem, addr as int);
                if addr >= mem.len() {
                    r == Err::<Vec<u8>, Exception>(Exception::SegmentationViolation(Offset32(addr)))
                } else if end >= mem.len() {
                    r == Err::<Vec<u8>, Exception>(Exception::SegmentationViolation(Offset32(end as u32)))
                } else {
                    r matches Ok(s) && s@ == mem.subrange(addr as int, end)
                }
            }),
    {
        match self.get_cstr(addr) {
            Ok(s) => Ok(copy_range(s.0, 0, s.0.len())),
            Err(e) => Err(e),
        }
    }

    /// The window that `handle` names, by its index, and whether drawing in
    /// it is to be shown at once (an even handle).
    pub open spec fn spec_window_index(&self, handle: u32) -> Option<(int, bool)> {
        let index = if handle / 2 == 0 { u32::MAX as int } else { handle / 2 - 1 };
        if index < self.windows.len() {
            Some((index, handle % 2 == 0))
        } else {
            None
        }
    }

    /// The index of the window that `handle` names, and whether drawing in it
    /// is to be shown at once.
    fn window_index(&self, handle: u32) -> (r: Option<(usize, bool)>)
        ensures
            match self.spec_window_index(handle) {
                Some((i, red)) => r == Some((i as usize, red)),
                None => r is None,
            },
    {
        let redraw = (handle & 1) == 0;
        assert((handle & 1) == handle % 2) by (bit_vector);
        assert(handle >> 1u32 == handle / 2) by (bit_vector);
        let window_id = (handle >> 1).wrapping_sub(1) as usize;
        if self.windows.len() <= window_id {
            return None;
        }
        Some((window_id, redraw))
    }

    /// The window that `handle` names, and whether drawing in it is to be
    /// shown at once (an even handle).
    pub fn window_handle(&self, handle: u32) -> (r: Option<(&HariWindow, bool)>)
        ensures
            match self.spec_window_index(handle) {
                Some((i, red)) => r matches Some((w, b)) && *w == self.windows@[i] && b == red,
                None => r is None,
            },
    {
        match self.window_index(handle) {
            Some((i, redraw)) => Some((&self.windows[i], redraw)),
            None => None,
        }
    }

    /// Sets a register of the task.
    fn set_reg(&mut self, r: RtReg, v: u32)
        ensures
            final(self).emulator.spec_state()@ == old(self).emulator.spec_state()@.with_reg(r.index(), v),
            final(self).emulator.mem() == old(self).emulator.mem(),
            final(self).emulator.spec_tracer() == old(self).emulator.spec_tracer(),
            *final(self) == (App { emulator: final(self).emulator, ..*old(self) }),
            old(self).wf() ==> final(self).wf(),
            final(self).reg(r) == v,
            final(self).emulator.spec_state()@.regs.len() == 16,
            forall|q: RtReg| q.index() != r.index() ==> #[trigger] final(self).reg(q) == old(self).reg(q),
    {
        proof {
            self.emulator.spec_state().lemma_view_lens();
        }
        let state = self.emulator.state_mut();
        state.write32(r, v);
    }

    /// A register of the task.
    fn get_reg(&self, r: RtReg) -> (v: u32)
        ensures
            v == self.reg(r),
    {
        self.emulator.state().read32(r)
    }

    /// Finishes the system call that opens a window: the host opened it as
    /// `window_id`. The window, of the size in ESI and EDI, keeps its pixels at
    /// EBX of the data segment, which get the background colour; EAX gets its
    /// handle. Returns the drawing of the whole window; a segmentation
    /// violation where the pixels do not fit in the data segment.
    pub fn open_window(&mut self, window_id: u32) -> (r: Result<Vec<HostCall>, Exception>)
        requires
            old(self).wf(),
        ensures
            final(self).wf(),
            final(self).emulator.mem().len() == old(self).emulator.mem().len(),
            ({
                let width = old(self).reg(RtReg::ESI);
                let height = old(self).reg(RtReg::EDI);
                let buffer = old(self).reg(RtReg::EBX);
                if buffer + width * height <= old(self).emulator.mem().len() {
                    &&& r is Ok
                    &&& final(self).windows@.len() == old(self).windows@.len() + 1
                    &&& final(self).windows@.last().window_id == WindowId(window_id)
                    &&& final(self).windows@.last().size == Size { width, height }
                    &&& final(self).windows@.last().buffer_ptr == buffer
                    &&& final(self).reg(RtReg::EAX) == (final(self).windows@.len() as u32).wrapping_mul(2)
                } else {
                    &&& r == Err::<Vec<HostCall>, Exception>(Exception::SegmentationViolation(Offset32(buffer)))
                    &&& *final(self) == *old(self)
                }
            }),
    {
        let width = self.get_reg(RtReg::ESI);
        let height = self.get_reg(RtReg::EDI);
        let buffer = self.get_reg(RtReg::EBX);
        assert(width as u64 * height as u64 <= 0xffff_ffff * 0xffff_ffff) by (nonlinear_arith)
            requires
                width <= 0xffff_ffff,
                height <= 0xffff_ffff,
        ;
        let area = width as u64 * height as u64;
        if buffer as u128 + area as u128 > self.emulator.data().len() as u128 {
            return Err(Exception::SegmentationViolation(Offset32(buffer)));
        }
        let size = Size { width, height };
        let ghost mem_len = self.emulator.mem().len();
        let data = self.emulator.data_mut();
        let window = HariWindow::new(WindowId(window_id), size, buffer, data);
        let redraw = window.redraw_rect(data, Point::zero(), Point { x: width as i32, y: height as i32 });
        self.windows.push(window);
        let handle = (self.windows.len() as u32).wrapping_mul(2);
        self.set_reg(RtReg::EAX, handle);
        let mut calls: Vec<HostCall> = Vec::new();
        if let Some(d) = redraw {
            calls.push(HostCall::Redraw(d));
        }
        assert(forall|i: int| 0 <= i < self.windows.len() ==> #[trigger] self.windows@[i].wf(mem_len as nat));
        Ok(calls)
    }

    /// Finishes the system call that opens a file: the host read `contents`
    /// (`None` where there is no such file). EAX gets the file's handle, 0
    /// where it could not be opened.
    pub fn open_file(&mut self, contents: Option<Vec<u8>>)
        requires
            old(self).wf(),
        ensures
            final(self).wf(),
            final(self).emulator.mem() == old(self).emulator.mem(),
            match contents {
                None => final(self).reg(RtReg::EAX) == 0 && final(self).files == old(self).files,
                Some(d) => d.len() <= isize::MAX ==> {
                    &&& final(self).reg(RtReg::EAX) == old(self).files.next_handle
                    &&& final(self).files.files@.contains_key(old(self).files.next_handle)
                    &&& final(self).files.files@[old(self).files.next_handle].data@ == d@
                    &&& final(self).files.files@[old(self).files.next_handle].pos == 0
                },
            },
    {
        let handle = self.files.open_file(contents);
        let v = match handle {
            Some(h) => h.0,
            None => 0,
        };
        self.set_reg(RtReg::EAX, v);
    }

    /// Finishes the system call that reads the clock: EAX gets `count`, the
    /// time in units of 10 ms.
    pub fn time_count(&mut self, count: u32)
        requires
            old(self).wf(),
        ensures
            final(self).wf(),
            final(self).emulator.mem() == old(self).emulator.mem(),
            final(self).reg(RtReg::EAX) == count,
    {
        self.set_reg(RtReg::EAX, count);
    }
}

impl App {
    /// What `get_cstr` finds at `addr` of `mem`: the string's bytes, or the
    /// segmentation violation.
    pub open spec fn cstr_result(mem: Seq<u8>, addr: u32) -> Result<Seq<u8>, Exception> {
        let end = cstr_end(mem, addr as int);
        if addr >= mem.len() {
            Err(Exception::SegmentationViolation(Offset32(addr)))
        } else if end >= mem.len() {
            Err(Exception::SegmentationViolation(Offset32(end as u32)))
        } else {
            Ok(mem.subrange(addr as int, end))
        }
    }

    /// Whether `calls` redraws the rectangle from `a` to `b` of `w`, with the
    /// pixels of `mem`, where `shown` asks for it and some of it shows.
    pub open spec fn redraw_effect(w: HariWindow, mem: Seq<u8>, a: Point, b: Point, shown: bool, calls: Seq<HostCall>) -> bool {
        if shown && w.redraws(a, b) {
            calls.len() == 1 && (calls[0] matches HostCall::Redraw(d) && w.redraw_of(mem, a, b, d))
        } else {
            calls.len() == 0
        }
    }

    /// Whether `after` differs from `before` in the memory of the task alone.
    pub open spec fn draws_only(before: App, after: App) -> bool {
        &&& after == (App { emulator: after.emulator, ..before })
        &&& after.emulator.spec_state() == before.emulator.spec_state()
        &&& after.emulator.spec_tracer() == before.emulator.spec_tracer()
    }

    /// System call 6: the string at EBP, of up to ECX characters, drawn at
    /// (ESI, EDI) in the colour AL of the window that EBX names.
    pub open spec fn draw_text_effect(before: App, after: App, r: Result<Seq<HostCall>, Exception>) -> bool {
        let mem = before.emulator.mem();
        let p = Point { x: before.reg(RtReg::ESI) as i32, y: before.reg(RtReg::EDI) as i32 };
        let max_len = before.reg(RtReg::ECX) as usize;
        &&& Self::draws_only(before, after)
        &&& match before.spec_window_index(before.reg(RtReg::EBX)) {
            None => r matches Ok(v) && v.len() == 0 && after.emulator.mem() == mem,
            Some((i, shown)) => match Self::cstr_result(mem, before.reg(RtReg::EBP)) {
                Err(e) => r == Err::<Seq<HostCall>, Exception>(e) && after.emulator.mem() == mem,
                Ok(text) => {
                    let w = before.windows@[i];
                    let b = Point { x: (p.x + max_len as u32 as i32 * 8) as i32, y: (p.y + 16) as i32 };
                    &&& after.emulator.mem() == w.string_drawn(
                        mem,
                        p.x,
                        p.y,
                        text,
                        0,
                        before.lang_mode,
                        max_len as nat,
                        before.reg(RtReg::EAX) as u8,
                        before.hankaku_font@,
                        before.japanese_font@,
                    )
                    &&& r matches Ok(v) && Self::redraw_effect(w, after.emulator.mem(), p, b, shown, v)
                },
            },
        }
    }

    /// System call 7: the rectangle from (EAX, ECX) to (ESI, EDI) of the
    /// window that EBX names filled with the colour EBP.
    pub open spec fn fill_rect_effect(before: App, after: App, calls: Seq<HostCall>) -> bool {
        let mem = before.emulator.mem();
        let a = Point { x: before.reg(RtReg::EAX) as i32, y: before.reg(RtReg::ECX) as i32 };
        let b = Point { x: before.reg(RtReg::ESI) as i32, y: before.reg(RtReg::EDI) as i32 };
        &&& Self::draws_only(before, after)
        &&& match before.spec_window_index(before.reg(RtReg::EBX)) {
            None => calls.len() == 0 && after.emulator.mem() == mem,
            Some((i, shown)) => {
                let w = before.windows@[i];
                match crate::haribote::window::spec_clip_rect(w.size, a, b) {
                    Some((lt, rb)) => {
                        &&& after.emulator.mem() == crate::haribote::window::filled(
                            mem,
                            w.buffer_ptr as int,
                            w.size.width as int,
                            lt,
                            rb,
                            before.reg(RtReg::EBP) as u8,
                        )
                        &&& Self::redraw_effect(w, after.emulator.mem(), lt, rb, shown, calls)
                    },
                    None => calls.len() == 0 && after.emulator.mem() == mem,
                }
            },
        }
    }

    /// System call 11: the pixel at (ESI, EDI) of the window that EBX names
    /// set to the colour AL.
    pub open spec fn set_pixel_effect(before: App, after: App, calls: Seq<HostCall>) -> bool {
        let mem = before.emulator.mem();
        let p = Point { x: before.reg(RtReg::ESI) as i32, y: before.reg(RtReg::EDI) as i32 };
        &&& Self::draws_only(before, after)
        &&& match before.spec_window_index(before.reg(RtReg::EBX)) {
            None => calls.len() == 0 && after.emulator.mem() == mem,
            Some((i, shown)) => {
                let w = before.windows@[i];
                if w.try_clip_point_spec(p) is Some {
                    &&& after.emulator.mem() == mem.update(
                        w.pixel_at(p.x as int, p.y as int),
                        read8_of(before.emulator.spec_state()@.regs, RtReg8::AL),
                    )
                    &&& Self::redraw_effect(w, after.emulator.mem(), p, p, shown, calls)
                } else {
                    calls.len() == 0 && after.emulator.mem() == mem
                }
            },
        }
    }

    /// System call 12: the rectangle from (EAX, ECX) to (ESI, EDI) of the
    /// window that EBX names redrawn.
    pub open spec fn refresh_effect(app: App, calls: Seq<HostCall>) -> bool {
        let a = Point { x: app.reg(RtReg::EAX) as i32, y: app.reg(RtReg::ECX) as i32 };
        let b = Point { x: app.reg(RtReg::ESI) as i32, y: app.reg(RtReg::EDI) as i32 };
        match app.spec_window_index(app.reg(RtReg::EBX)) {
            None => calls.len() == 0,
            Some((i, _)) => Self::redraw_effect(app.windows@[i], app.emulator.mem(), a, b, true, calls),
        }
    }

    /// System call 13: the line from (EAX, ECX) to (ESI, EDI) drawn in the
    /// colour EBP in the window that EBX names.
    pub open spec fn draw_line_effect(before: App, after: App, calls: Seq<HostCall>) -> bool {
        let mem = before.emulator.mem();
        let a = Point { x: before.reg(RtReg::EAX) as i32, y: before.reg(RtReg::ECX) as i32 };
        let b = Point { x: before.reg(RtReg::ESI) as i32, y: before.reg(RtReg::EDI) as i32 };
        &&& Self::draws_only(before, after)
        &&& match before.spec_window_index(before.reg(RtReg::EBX)) {
            None => calls.len() == 0 && after.emulator.mem() == mem,
            Some((i, shown)) => {
                let w = before.windows@[i];
                &&& after.emulator.mem() == w.line_put(mem, a, b, before.reg(RtReg::EBP) as u8)
                &&& Self::redraw_effect(w, after.emulator.mem(), a, b, shown, calls)
            },
        }
    }

    /// Whether `after` is `before` with EAX set to `v` and the memory of the
    /// task set to `mem`.
    pub open spec fn eax_and_mem(before: App, after: App, v: u32, mem: Seq<u8>) -> bool {
        &&& after.emulator.spec_state()@ == before.emulator.spec_state()@.with_reg(RtReg::EAX.index(), v)
        &&& after.emulator.mem() == mem
        &&& after.emulator.spec_tracer() == before.emulator.spec_tracer()
    }

    /// System call 23: the file that EAX names moved to offset EBX from the
    /// origin that ECX names, kept within the file.
    pub open spec fn seek_effect(before: App, after: App) -> bool {
        let h = before.reg(RtReg::EAX);
        let offset = before.reg(RtReg::EBX) as i32 as isize;
        let whence = if before.reg(RtReg::ECX) == 1 {
            Whence::SeekCur
        } else if before.reg(RtReg::ECX) == 2 {
            Whence::SeekEnd
        } else {
            Whence::SeekSet
        };
        &&& after == (App { files: after.files, ..before })
        &&& after.files.next_handle == before.files.next_handle
        &&& if before.files.files@.contains_key(h) {
            let f = before.files.files@[h];
            let target = crate::haribote::file::seek_target(f.data.len() as int, f.pos as int, offset, whence);
            after.files.files@ == before.files.files@.insert(
                h,
                crate::haribote::file::File {
                    data: f.data,
                    pos: crate::haribote::file::clamp_pos(f.data.len() as int, target) as isize,
                },
            )
        } else {
            after.files.files@ == before.files.files@
        }
    }

    /// System call 24: EAX set to the size of the file that EAX names, its
    /// position, or the position less the size, as ECX asks.
    pub open spec fn file_size_effect(before: App, after: App) -> bool {
        let h = before.reg(RtReg::EAX);
        if before.files.files@.contains_key(h) {
            let f = before.files.files@[h];
            let size: int = if before.reg(RtReg::ECX) == 1 {
                f.pos as int
            } else if before.reg(RtReg::ECX) == 2 {
                f.pos - f.data.len()
            } else {
                f.data.len() as int
            };
            &&& Self::eax_and_mem(before, after, size as u32, before.emulator.mem())
            &&& after == (App { emulator: after.emulator, ..before })
        } else {
            after == before
        }
    }

    /// System call 25: up to ECX bytes of the file that EAX names read into
    /// the data segment at EBX, and their number in EAX.
    pub open spec fn read_file_effect(before: App, after: App, r: Result<(), Exception>) -> bool {
        let h = before.reg(RtReg::EAX);
        let ptr = before.reg(RtReg::EBX);
        let max = before.reg(RtReg::ECX);
        let mem = before.emulator.mem();
        if !buffer_fits(ptr, max, mem.len() as int) {
            &&& r == Err::<(), Exception>(Exception::SegmentationViolation(Offset32(ptr)))
            &&& after == before
        } else if before.files.files@.contains_key(h) {
            let f = before.files.files@[h];
            let n = crate::haribote::file::read_count(f.data.len() as int, f.pos as int, max as int);
            &&& r is Ok
            &&& Self::eax_and_mem(before, after, n as u32, overwrite(mem, ptr as int, f.data@.subrange(f.pos as int, f.pos + n)))
            &&& after.files.files@ == before.files.files@.insert(
                h,
                crate::haribote::file::File { data: f.data, pos: (f.pos + n) as isize },
            )
            &&& after.files.next_handle == before.files.next_handle
            &&& after == (App { emulator: after.emulator, files: after.files, ..before })
        } else {
            &&& r is Ok
            &&& Self::eax_and_mem(before, after, 0, mem)
            &&& after.files.files@ == before.files.files@
            &&& after.files.next_handle == before.files.next_handle
            &&& after == (App { emulator: after.emulator, files: after.files, ..before })
        }
    }

    /// System call 26: the command line, cut to ECX bytes and padded with
    /// zeros to ECX bytes, copied to the data segment at EBX, and the length
    /// of what was copied in EAX.
    pub open spec fn cmdline_effect(before: App, after: App, r: Result<(), Exception>) -> bool {
        let ptr = before.reg(RtReg::EBX);
        let len = before.reg(RtReg::ECX);
        let mem = before.emulator.mem();
        let n = if len < before.cmdline@.len() { len as int } else { before.cmdline@.len() as int };
        if !buffer_fits(ptr, len, mem.len() as int) {
            &&& r == Err::<(), Exception>(Exception::SegmentationViolation(Offset32(ptr)))
            &&& after == before
        } else {
            &&& r is Ok
            &&& Self::eax_and_mem(
                before,
                after,
                n as u32,
                overwrite(mem, ptr as int, before.cmdline@.subrange(0, n) + Seq::new((len - n) as nat, |i: int| 0u8)),
            )
            &&& after == (App { emulator: after.emulator, ..before })
        }
    }

    /// Whether `r` is the outcome of a system call that is done with
    /// `status` and leaves nothing to the host.
    pub open spec fn done(r: Result<Syscall, Exception>, status: ExitStatus) -> bool {
        r matches Ok(Syscall::Done(st, v)) && st == status && v@.len() == 0
    }

    /// The redrawing to hand the host, where there is any.
    fn redraw_calls(d: Option<Redraw>) -> (r: Vec<HostCall>)
        ensures
            match d {
                Some(x) => r@ == seq![HostCall::Redraw(x)],
                None => r@.len() == 0,
            },
    {
        let mut v: Vec<HostCall> = Vec::new();
        if let Some(x) = d {
            v.push(HostCall::Redraw(x));
        }
        v
    }

    /// Draws the string at EBP, of up to ECX characters, at (ESI, EDI) in the
    /// colour AL of the window that EBX names; a segmentation violation where
    /// the window exists and the string does not fit in the data segment.
    fn sys_draw_text(&mut self) -> (r: Result<Vec<HostCall>, Exception>)
        requires
            old(self).wf(),
        ensures
            final(self).wf(),
            final(self).emulator.mem().len() == old(self).emulator.mem().len(),
            Self::draw_text_effect(*old(self), *final(self), match r {
                Ok(v) => Ok(v@),
                Err(e) => Err(e),
            }),
    {
        let handle = self.get_reg(RtReg::EBX);
        match self.window_index(handle) {
            None => Ok(Vec::new()),
            Some((idx, redraw)) => {
                let x = self.get_reg(RtReg::ESI) as i32;
                let y = self.get_reg(RtReg::EDI) as i32;
                let color = self.get_reg(RtReg::EAX) as u8;
                let text = match self.cstr_bytes(self.get_reg(RtReg::EBP)) {
                    Ok(t) => t,
                    Err(e) => return Err(e),
                };
                let max_len = self.get_reg(RtReg::ECX) as usize;
                let js = JisString::from_bytes(text.as_slice());
                let mut chars = js.chars(self.lang_mode);
                let ghost mem_len = self.emulator.mem().len();
                let data = self.emulator.data_mut();
                let d = self.windows[idx].draw_string(
                    data,
                    Point { x, y },
                    &mut chars,
                    max_len,
                    color,
                    redraw,
                    self.hankaku_font.as_slice(),
                    self.japanese_font.as_slice(),
                );
                assert(forall|j: int| 0 <= j < self.windows.len() ==> #[trigger] self.windows@[j].wf(mem_len as nat));
                Ok(Self::redraw_calls(d))
            },
        }
    }

    /// Fills the rectangle from (EAX, ECX) to (ESI, EDI) with the colour in
    /// EBP of the window that EBX names.
    fn sys_fill_rect(&mut self) -> (r: Vec<HostCall>)
        requires
            old(self).wf(),
        ensures
            final(self).wf(),
            final(self).emulator.mem().len() == old(self).emulator.mem().len(),
            Self::fill_rect_effect(*old(self), *final(self), r@),
    {
        let handle = self.get_reg(RtReg::EBX);
        match self.window_index(handle) {
            None => Vec::new(),
            Some((idx, redraw)) => {
                let x0 = self.get_reg(RtReg::EAX) as i32;
                let y0 = self.get_reg(RtReg::ECX) as i32;
                let x1 = self.get_reg(RtReg::ESI) as i32;
                let y1 = self.get_reg(RtReg::EDI) as i32;
                let color = self.get_reg(RtReg::EBP) as u8;
                let ghost mem_len = self.emulator.mem().len();
                let data = self.emulator.data_mut();
                let d = self.windows[idx].fill_rect(data, Point { x: x0, y: y0 }, Point { x: x1, y: y1 }, color, redraw);
                assert(forall|j: int| 0 <= j < self.windows.len() ==> #[trigger] self.windows@[j].wf(mem_len as nat));
                Self::redraw_calls(d)
            },
        }
    }

    /// Sets the pixel at (ESI, EDI) of the window that EBX names to the
    /// colour AL.
    fn sys_set_pixel(&mut self) -> (r: Vec<HostCall>)
        requires
            old(self).wf(),
        ensures
            final(self).wf(),
            final(self).emulator.mem().len() == old(self).emulator.mem().len(),
            Self::set_pixel_effect(*old(self), *final(self), r@),
    {
        let handle = self.get_reg(RtReg::EBX);
        match self.window_index(handle) {
            None => Vec::new(),
            Some((idx, redraw)) => {
                let x = self.get_reg(RtReg::ESI) as i32;
                let y = self.get_reg(RtReg::EDI) as i32;
                let color = self.emulator.state().read8(RtReg8::AL);
                let ghost mem_len = self.emulator.mem().len();
                let data = self.emulator.data_mut();
                let d = self.windows[idx].set_pixel(data, Point { x, y }, color, redraw);
                assert(forall|j: int| 0 <= j < self.windows.len() ==> #[trigger] self.windows@[j].wf(mem_len as nat));
                Self::redraw_calls(d)
            },
        }
    }

    /// Redraws the rectangle from (EAX, ECX) to (ESI, EDI) of the window that
    /// EBX names.
    fn sys_refresh(&self) -> (r: Vec<HostCall>)
        ensures
            Self::refresh_effect(*self, r@),
    {
        let handle = self.get_reg(RtReg::EBX);
        match self.window_index(handle) {
            None => Vec::new(),
            Some((idx, _redraw)) => {
                let x0 = self.get_reg(RtReg::EAX) as i32;
                let y0 = self.get_reg(RtReg::ECX) as i32;
                let x1 = self.get_reg(RtReg::ESI) as i32;
                let y1 = self.get_reg(RtReg::EDI) as i32;
                let d = self.windows[idx].redraw_rect(self.emulator.data_vec(), Point { x: x0, y: y0 }, Point { x: x1, y: y1 });
                Self::redraw_calls(d)
            },
        }
    }

    /// Draws a line from (EAX, ECX) to (ESI, EDI) in the colour in EBP in the
    /// window that EBX names.
    fn sys_draw_line(&mut self) -> (r: Vec<HostCall>)
        requires
            old(self).wf(),
        ensures
            final(self).wf(),
            final(self).emulator.mem().len() == old(self).emulator.mem().len(),
            Self::draw_line_effect(*old(self), *final(self), r@),
    {
        let handle = self.get_reg(RtReg::EBX);
        match self.window_index(handle) {
            None => Vec::new(),
            Some((idx, redraw)) => {
                let x0 = self.get_reg(RtReg::EAX) as i32;
                let y0 = self.get_reg(RtReg::ECX) as i32;
                let x1 = self.get_reg(RtReg::ESI) as i32;
                let y1 = self.get_reg(RtReg::EDI) as i32;
                let color = self.get_reg(RtReg::EBP) as u8;
                let ghost mem_len = self.emulator.mem().len();
                let data = self.emulator.data_mut();
                let d = self.windows[idx].draw_line(data, Point { x: x0, y: y0 }, Point { x: x1, y: y1 }, color, redraw);
                assert(forall|j: int| 0 <= j < self.windows.len() ==> #[trigger] self.windows@[j].wf(mem_len as nat));
                Self::redraw_calls(d)
            },
        }
    }
}

/// The origin that the number `v` names, from the start where it names none.
fn whence_of(v: u32) -> (r: Whence)
    ensures
        r == (if v == 1 {
            Whence::SeekCur
        } else if v == 2 {
            Whence::SeekEnd
        } else {
            Whence::SeekSet
        }),
{
    match Whence::from_u32(v) {
        Some(w) => w,
        None => Whence::default(),
    }
}

/// `mem` with the bytes from `at` on replaced by `b`.
pub open spec fn overwrite(mem: Seq<u8>, at: int, b: Seq<u8>) -> Seq<u8> {
    Seq::new(mem.len(), |i: int| if at <= i < at + b.len() { b[i - at] } else { mem[i] })
}

/// Whether the `len` bytes from `ptr` on lie in a segment of `seg_len` bytes,
/// as the file and command line calls check it: `ptr` lies in it and the end,
/// saturated, does not pass it.
pub open spec fn buffer_fits(ptr: u32, len: u32, seg_len: int) -> bool {
    ptr < seg_len && ptr + len <= seg_len
}

impl App {
    /// Moves the position of the file that EAX names to EBX (signed) from the
    /// origin that ECX names.
    fn sys_seek(&mut self)
        requires
            old(self).wf(),
        ensures
            final(self).wf(),
            Self::seek_effect(*old(self), *final(self)),
    {
        let handle = Handle(self.get_reg(RtReg::EAX));
        let offset = self.get_reg(RtReg::EBX) as i32 as isize;
        let whence = whence_of(self.get_reg(RtReg::ECX));
        let _ = self.files.seek(handle, offset, whence);
    }

    /// EAX gets the size of the file that EAX names, its position, or the
    /// position less the size, as ECX asks; nothing changes where there is
    /// no such file.
    fn sys_file_size(&mut self)
        requires
            old(self).wf(),
        ensures
            final(self).wf(),
            Self::file_size_effect(*old(self), *final(self)),
    {
        let handle = Handle(self.get_reg(RtReg::EAX));
        let whence = whence_of(self.get_reg(RtReg::ECX));
        let size = match self.files.get(handle) {
            Some(file) => Some(file.get_file_size(whence)),
            None => None,
        };
        if let Some(size) = size {
            self.set_reg(RtReg::EAX, size as u32);
        }
    }

    /// Reads up to ECX bytes of the file that EAX names into the data segment
    /// at EBX; EAX gets how many, 0 where there is no such file. A
    /// segmentation violation where the buffer does not lie in the segment.
    fn sys_read_file(&mut self) -> (r: Result<(), Exception>)
        requires
            old(self).wf(),
        ensures
            final(self).wf(),
            final(self).emulator.mem().len() == old(self).emulator.mem().len(),
            Self::read_file_effect(*old(self), *final(self), r),
    {
        let handle = Handle(self.get_reg(RtReg::EAX));
        let buf_ptr = self.get_reg(RtReg::EBX) as usize;
        let max_len = self.get_reg(RtReg::ECX) as usize;
        let len = self.emulator.data().len();
        if buf_ptr >= len || buf_ptr as u64 + max_len as u64 > len as u64 {
            return Err(Exception::SegmentationViolation(Offset32(buf_ptr as u32)));
        }
        let read = self.files.read(handle, max_len);
        let count = match read {
            Some(bytes) => {
                let ghost mem0 = self.emulator.mem();
                let ghost mem_len = mem0.len();
                let data = self.emulator.data_mut();
                let mut i: usize = 0;
                while i < bytes.len()
                    invariant
                        i <= bytes.len(),
                        bytes.len() <= max_len,
                        buf_ptr + max_len <= data.len(),
                        data.len() == mem0.len(),
                        forall|k: int| 0 <= k < mem0.len() ==> #[trigger] data@[k]
                            == if buf_ptr <= k < buf_ptr + i { bytes@[k - buf_ptr] } else { mem0[k] },
                    decreases bytes.len() - i,
                {
                    data.set(buf_ptr + i, bytes[i]);
                    i += 1;
                }
                assert(data@ =~= overwrite(mem0, buf_ptr as int, bytes@));
                assert(forall|j: int| 0 <= j < self.windows.len() ==> #[trigger] self.windows@[j].wf(mem_len as nat));
                bytes.len()
            },
            None => 0,
        };
        self.set_reg(RtReg::EAX, count as u32);
        Ok(())
    }

    /// Copies the command line, cut to ECX bytes, to the data segment at EBX,
    /// after filling the ECX bytes there with zeros; EAX gets how many bytes
    /// were copied. A segmentation violation where the buffer does not lie in
    /// the segment.
    fn sys_cmdline(&mut self) -> (r: Result<(), Exception>)
        requires
            old(self).wf(),
        ensures
            final(self).wf(),
            final(self).emulator.mem().len() == old(self).emulator.mem().len(),
            Self::cmdline_effect(*old(self), *final(self), r),
    {
        let buf_ptr = self.get_reg(RtReg::EBX) as usize;
        let buf_len = self.get_reg(RtReg::ECX) as usize;
        let len = self.emulator.data().len();
        if buf_ptr >= len || buf_ptr as u64 + buf_len as u64 > len as u64 {
            return Err(Exception::SegmentationViolation(Offset32(buf_ptr as u32)));
        }
        let copy_len = if buf_len < self.cmdline.len() { buf_len } else { self.cmdline.len() };
        let ghost mem0 = self.emulator.mem();
        let ghost mem_len = mem0.len();
        let ghost fill = self.cmdline@.subrange(0, copy_len as int) + Seq::new((buf_len - copy_len) as nat, |i: int| 0u8);
        let data = self.emulator.data_mut();
        let mut i: usize = 0;
        while i < buf_len
            invariant
                i <= buf_len,
                copy_len <= buf_len,
                copy_len <= self.cmdline.len(),
                buf_ptr + buf_len <= data.len(),
                data.len() == mem0.len(),
                fill.len() == buf_len,
                fill == self.cmdline@.subrange(0, copy_len as int) + Seq::new((buf_len - copy_len) as nat, |i: int| 0u8),
                forall|k: int| 0 <= k < mem0.len() ==> #[trigger] data@[k]
                    == if buf_ptr <= k < buf_ptr + i { fill[k - buf_ptr] } else { mem0[k] },
            decreases buf_len - i,
        {
            let b: u8 = if i < copy_len { self.cmdline[i] } else { 0 };
            data.set(buf_ptr + i, b);
            i += 1;
        }
        assert(data@ =~= overwrite(mem0, buf_ptr as int, fill));
        assert(forall|j: int| 0 <= j < self.windows.len() ==> #[trigger] self.windows@[j].wf(mem_len as nat));
        self.set_reg(RtReg::EAX, copy_len as u32);
        Ok(())
    }
}

impl App {
    /// Whether `r` hands the host the key wait that asks for a key (waiting
    /// for one where `sleep`), for an extended key code where `ex`.
    pub open spec fn key_wait(&self, r: Result<Syscall, Exception>, sleep: bool, ex: bool) -> bool {
        if sleep {
            &&& Self::done(r, ExitStatus::Wait(10))
            &&& self.state == AppState::WaitKey(ex)
        } else {
            &&& Self::done(r, ExitStatus::Wait(0))
            &&& self.state == AppState::GetKey(ex)
        }
    }

    /// What the system call with the number in EDX does, from the task
    /// `before` to the task `after`, with the outcome `r`.
    pub open spec fn syscall_effect(before: App, after: App, r: Result<Syscall, Exception>) -> bool {
        let n = before.reg(RtReg::EDX);
        let eax = before.reg(RtReg::EAX);
        let ebx = before.reg(RtReg::EBX);
        let ecx = before.reg(RtReg::ECX);
        let mem = before.emulator.mem();
        let same = after == before;
        let only_eax = |v: u32| Self::eax_and_mem(before, after, v, mem);
        if n == 1 {
            &&& r matches Ok(Syscall::Done(ExitStatus::Continue, v))
                && v@ == seq![HostCall::PutChar(read8_of(before.emulator.spec_state()@.regs, RtReg8::AL))]
            &&& same
        } else if n == 2 {
            &&& same
            &&& match Self::cstr_result(mem, ebx) {
                Ok(b) => r matches Ok(Syscall::Done(ExitStatus::Continue, v)) && v@.len() == 1
                    && (v@[0] matches HostCall::PutStr(p) && p@ == b),
                Err(e) => r == Err::<Syscall, Exception>(e),
            }
        } else if n == 4 {
            Self::done(r, ExitStatus::Exit) && same
        } else if n == 5 {
            &&& same
            &&& match Self::cstr_result(mem, ecx) {
                Ok(b) => r matches Ok(Syscall::OpenWindow { title, size }) && title@ == b
                    && size == (Size { width: before.reg(RtReg::ESI), height: before.reg(RtReg::EDI) }),
                Err(e) => r == Err::<Syscall, Exception>(e),
            }
        } else if n == 8 {
            &&& Self::done(r, ExitStatus::Continue)
            &&& after.allocator.start == eax as usize
            &&& after.allocator.end == (eax as usize).wrapping_add(ecx as usize)
            &&& after == (App { allocator: after.allocator, ..before })
        } else if n == 9 {
            let size = crate::haribote::malloc::round16(ecx as int);
            &&& Self::done(r, ExitStatus::Continue)
            &&& after == (App { emulator: after.emulator, allocator: after.allocator, ..before })
            &&& if before.allocator.start + size <= before.allocator.end {
                &&& only_eax(before.allocator.start as u32)
                &&& after.allocator.start == before.allocator.start + size
                &&& after.allocator.end == before.allocator.end
            } else {
                &&& only_eax(0)
                &&& after.allocator == before.allocator
            }
        } else if n == 10 || n == 14 {
            Self::done(r, ExitStatus::Continue) && same
        } else if n == 15 || (n == 33 && ecx == 2) {
            &&& after.key_wait(r, eax != 0, n == 33)
            &&& after == (App { state: after.state, ..before })
        } else if n == 16 {
            &&& Self::done(r, ExitStatus::Continue)
            &&& only_eax(before.timers.next_handle)
            &&& after == (App { emulator: after.emulator, timers: after.timers, ..before })
            &&& after.timers.next_handle == before.timers.next_handle.wrapping_add(1)
            &&& after.timers.timers@ == before.timers.timers@.insert(
                before.timers.next_handle,
                crate::haribote::timer::Timer { value: 0, is_active: false },
            )
        } else if n == 17 {
            let h = ebx;
            &&& Self::done(r, ExitStatus::Continue)
            &&& after == (App { timers: after.timers, ..before })
            &&& after.timers.timers@ == if before.timers.timers@.contains_key(h) {
                before.timers.timers@.insert(
                    h,
                    crate::haribote::timer::Timer { value: eax.wrapping_add(TIMER_ID_BIAS), ..before.timers.timers@[h] },
                )
            } else {
                before.timers.timers@
            }
        } else if n == 18 {
            let h = ebx;
            &&& after == (App { timers: after.timers, ..before })
            &&& if before.timers.timers@.contains_key(h) {
                &&& r matches Ok(Syscall::Done(ExitStatus::Continue, v)) && v@ == seq![
                    HostCall::ScheduleEvent {
                        delay: eax.wrapping_mul(10),
                        code: before.timers.timers@[h].value as i32,
                    },
                ]
                &&& after.timers.timers@[h].is_active
            } else {
                Self::done(r, ExitStatus::Continue) && after.timers.timers@ == before.timers.timers@
            }
        } else if n == 19 {
            &&& Self::done(r, ExitStatus::Continue)
            &&& after == (App { timers: after.timers, ..before })
            &&& before.timers.timers@.contains_key(ebx) ==> !after.timers.timers@[ebx].is_active
        } else if n == 20 {
            &&& r matches Ok(Syscall::Done(ExitStatus::Continue, v)) && v@ == seq![HostCall::PlaySound(eax)]
            &&& same
        } else if n == 21 {
            &&& same
            &&& match Self::cstr_result(mem, ebx) {
                Ok(b) => r matches Ok(Syscall::OpenFile(name)) && name@ == b,
                Err(e) => r == Err::<Syscall, Exception>(e),
            }
        } else if n == 22 {
            &&& Self::done(r, ExitStatus::Continue)
            &&& after.files.files@ == before.files.files@.remove(eax)
            &&& after == (App { files: after.files, ..before })
        } else if n == 27 {
            &&& Self::done(r, ExitStatus::Continue)
            &&& after.emulator.spec_state()@ == before.emulator.spec_state()@.with_reg(
                RtReg::EAX.index(),
                match before.lang_mode {
                    LangMode::Ascii => 0u32,
                    LangMode::ShiftJIS => 1,
                    LangMode::EUC => 2,
                },
            ).with_reg(RtReg::ECX.index(), OS_ID).with_reg(RtReg::EDX.index(), OS_VER)
            &&& after.emulator.mem() == mem
            &&& after.emulator.spec_tracer() == before.emulator.spec_tracer()
            &&& after == (App { emulator: after.emulator, ..before })
        } else if n == 28 || n == 29 || (n == 33 && ecx != 1 && ecx != 2) {
            &&& Self::done(r, ExitStatus::Continue)
            &&& only_eax(0)
            &&& after == (App { emulator: after.emulator, ..before })
        } else if n == 33 && ecx == 1 {
            &&& r matches Ok(Syscall::TimeCount)
            &&& same
        } else if n == 3 || n == 30 || n == 31 || n == 32 || n > 33 || n == 0 {
            &&& r matches Ok(Syscall::Done(ExitStatus::Exit, v)) && v@ == seq![HostCall::Unsupported(n)]
            &&& same
        } else if n == 6 {
            match r {
                Ok(Syscall::Done(ExitStatus::Continue, v)) => Self::draw_text_effect(before, after, Ok(v@)),
                Err(e) => Self::draw_text_effect(before, after, Err(e)),
                _ => false,
            }
        } else if n == 7 {
            r matches Ok(Syscall::Done(ExitStatus::Continue, v)) && Self::fill_rect_effect(before, after, v@)
        } else if n == 11 {
            r matches Ok(Syscall::Done(ExitStatus::Continue, v)) && Self::set_pixel_effect(before, after, v@)
        } else if n == 12 {
            &&& r matches Ok(Syscall::Done(ExitStatus::Continue, v)) && Self::refresh_effect(before, v@)
            &&& same
        } else if n == 13 {
            r matches Ok(Syscall::Done(ExitStatus::Continue, v)) && Self::draw_line_effect(before, after, v@)
        } else if n == 23 {
            Self::done(r, ExitStatus::Continue) && Self::seek_effect(before, after)
        } else if n == 24 {
            Self::done(r, ExitStatus::Continue) && Self::file_size_effect(before, after)
        } else if n == 25 {
            match r {
                Ok(_) => Self::done(r, ExitStatus::Continue) && Self::read_file_effect(before, after, Ok(())),
                Err(e) => Self::read_file_effect(before, after, Err(e)),
            }
        } else {
            // System call 26, the last one.
            match r {
                Ok(_) => Self::done(r, ExitStatus::Continue) && Self::cmdline_effect(before, after, Ok(())),
                Err(e) => Self::cmdline_effect(before, after, Err(e)),
            }
        }
    }

    /// Handles the system call that the task made, by its number in EDX.
    ///
    /// Calls that only the host can finish return what it is to do: a window
    /// to open (`open_window`), a file to read (`open_file`) or the clock to
    /// read (`time_count`); the others are done, with what the host is to
    /// perform and how the round goes on. A string or a buffer outside the
    /// data segment is a segmentation violation. An unknown call ends the task.
    pub fn syscall(&mut self) -> (r: Result<Syscall, Exception>)
        requires
            old(self).wf(),
        ensures
            final(self).wf(),
            final(self).emulator.mem().len() == old(self).emulator.mem().len(),
            final(self).emulator.spec_tracer() == old(self).emulator.spec_tracer(),
            Self::syscall_effect(*old(self), *final(self), r),
    {
        let number = self.get_reg(RtReg::EDX);
        let eax = self.get_reg(RtReg::EAX);
        let ebx = self.get_reg(RtReg::EBX);
        let ecx = self.get_reg(RtReg::ECX);
        let mut calls: Vec<HostCall> = Vec::new();
        match number {
            1 => {
                // putchar
                calls.push(HostCall::PutChar(self.emulator.state().read8(RtReg8::AL)));
            },
            2 => {
                // putstring (cstr)
                match self.cstr_bytes(ebx) {
                    Ok(b) => calls.push(HostCall::PutStr(b)),
                    Err(e) => return Err(e),
                }
            },
            4 => {
                // exit
                return Ok(Syscall::Done(ExitStatus::Exit, calls));
            },
            5 => {
                // open_win(title:ecx, width:esi, height:edi, buffer:ebx)
                let title = match self.cstr_bytes(ecx) {
                    Ok(t) => t,
                    Err(e) => return Err(e),
                };
                let size = Size { width: self.get_reg(RtReg::ESI), height: self.get_reg(RtReg::EDI) };
                return Ok(Syscall::OpenWindow { title, size });
            },
            6 => {
                // draw_text(window:ebx, x: esi, y:edi, color: eax, text:ebp, ecx: length)
                match self.sys_draw_text() {
                    Ok(v) => calls = v,
                    Err(e) => return Err(e),
                }
            },
            7 => {
                // fill_rect(window:ebx, x0:eax, y0:ecx, x1:esi, y1:edi, color:ebp)
                calls = self.sys_fill_rect();
            },
            8 => {
                // init malloc (start:eax, size:ecx)
                self.allocator.init(eax as usize, ecx as usize);
            },
            9 => {
                // malloc (size:ecx)
                let addr = self.allocator.allocate(ecx as usize);
                let v = match addr {
                    Some(a) => a as u32,
                    None => 0,
                };
                self.set_reg(RtReg::EAX, v);
            },
            10 => {
                // free (ptr:eax, size:ecx)
                self.allocator.free(eax as usize, ecx as usize);
            },
            11 => {
                // set pixel (window:ebx, x:esi, y:edi, color:al)
                calls = self.sys_set_pixel();
            },
            12 => {
                // refresh window (window:ebx, x0:eax, y0:ecx, x1:esi, y1:edi)
                calls = self.sys_refresh();
            },
            13 => {
                // draw_line(window:ebx, x0:eax, y0:ecx, x1:esi, y1:edi, color:ebp)
                calls = self.sys_draw_line();
            },
            14 => {
                // close window: windows stay open until the task ends
            },
            15 => {
                // get key
                return Ok(self.wait_key(eax != 0, false));
            },
            16 => {
                // alloc timer
                let h = self.timers.allocate();
                self.set_reg(RtReg::EAX, h.0);
            },
            17 => {
                // init timer (handle:ebx, value:eax)
                self.timers.init(Handle(ebx), eax.wrapping_add(TIMER_ID_BIAS));
            },
            18 => {
                // set timer (handle:ebx, timeout:eax)
                if let Some((delay, code)) = self.timers.set(Handle(ebx), eax.wrapping_mul(10)) {
                    calls.push(HostCall::ScheduleEvent { delay, code });
                }
            },
            19 => {
                // free timer (handle:ebx)
                self.timers.free(Handle(ebx));
            },
            20 => {
                // beep
                calls.push(HostCall::PlaySound(eax));
            },
            21 => {
                // open file for read
                match self.cstr_bytes(ebx) {
                    Ok(name) => return Ok(Syscall::OpenFile(name)),
                    Err(e) => return Err(e),
                }
            },
            22 => {
                // close file
                let _ = self.files.close_file(Handle(eax));
            },
            23 => {
                // seek file
                self.sys_seek();
            },
            24 => {
                // get file size
                self.sys_file_size();
            },
            25 => {
                // read file
                match self.sys_read_file() {
                    Ok(()) => {},
                    Err(e) => return Err(e),
                }
            },
            26 => {
                // get cmdline
                match self.sys_cmdline() {
                    Ok(()) => {},
                    Err(e) => return Err(e),
                }
            },
            27 => {
                // get lang mode
                let mode = self.lang_mode.to_u32();
                self.set_reg(RtReg::EAX, mode);
                self.set_reg(RtReg::ECX, OS_ID);
                self.set_reg(RtReg::EDX, OS_VER);
            },
            28 | 29 => {
                // open file for write, write file: not supported, they fail
                self.set_reg(RtReg::EAX, 0);
            },
            33 => {
                // extended API 33
                if ecx == 1 {
                    // int api_getTimeCount(void);
                    return Ok(Syscall::TimeCount);
                } else if ecx == 2 {
                    // int api_getkeyEx(int mode);
                    return Ok(self.wait_key(eax != 0, true));
                } else {
                    self.set_reg(RtReg::EAX, 0);
                }
            },
            _ => {
                calls.push(HostCall::Unsupported(number));
                return Ok(Syscall::Done(ExitStatus::Exit, calls));
            },
        }
        Ok(Syscall::Done(ExitStatus::Continue, calls))
    }

    /// The task waits for a key, waiting for one to be pressed where `sleep`.
    fn wait_key(&mut self, sleep: bool, ex: bool) -> (r: Syscall)
        ensures
            final(self).key_wait(Ok(r), sleep, ex),
            *final(self) == (App { state: final(self).state, ..*old(self) }),
    {
        if sleep {
            self.state = AppState::WaitKey(ex);
            Syscall::Done(ExitStatus::Wait(10), Vec::new())
        } else {
            self.state = AppState::GetKey(ex);
            Syscall::Done(ExitStatus::Wait(0), Vec::new())
        }
    }
}

/// A copy of the bytes of `s` from `start` to `end`.
pub fn copy_range(s: &[u8], start: usize, end: usize) -> (r: Vec<u8>)
    requires
        start <= end <= s.len(),
    ensures
        r@ == s@.subrange(start as int, end as int),
{
    let mut v: Vec<u8> = Vec::new();
    let mut i: usize = start;
    while i < end
        invariant
            start <= i <= end,
            end <= s.len(),
            v@ == s@.subrange(start as int, i as int),
        decreases end - i,
    {
        v.push(s[i]);
        i += 1;
        assert(v@ =~= s@.subrange(start as int, i as int));
    }
    v
}

} // verus!
