//! The presentation's state: current page, scroll offsets, running transition.
use vstd::prelude::*;
use crate::frontmatter::TransitionKind;
use crate::transition::{duration_spec, TransitionState};

verus! {

/// A key press, as the presenter sees it.
#[derive(Clone, Copy, Debug, PartialEq, Eq, Structural)]
pub enum KeyInput {
    Char(char),
    Left,
    Right,
    Up,
    Down,
    Esc,
    Other,
}

/// What a key asks for.
#[derive(Clone, Copy, Debug, PartialEq, Eq, Structural)]
pub enum Action {
    Quit,
    NextPage,
    PrevPage,
    ScrollDown(u16),
    ScrollUp(u16),
    Ignore,
}

/// The keyboard contract.
pub open spec fn action_spec(k: KeyInput) -> Action {
    match k {
        KeyInput::Char('q') | KeyInput::Esc => Action::Quit,
        KeyInput::Right | KeyInput::Char('l') | KeyInput::Char(' ') => Action::NextPage,
        KeyInput::Left | KeyInput::Char('h') => Action::PrevPage,
        KeyInput::Char('j') | KeyInput::Down => Action::ScrollDown(1),
        KeyInput::Char('k') | KeyInput::Up => Action::ScrollUp(1),
        KeyInput::Char('d') => Action::ScrollDown(10),
        KeyInput::Char('u') => Action::ScrollUp(10),
        _ => Action::Ignore,
    }
}

/// Next page: right arrow, `l`, space. Previous: left arrow, `h`. Scroll by
/// one: `j`/down, `k`/up; by ten: `d`, `u`. Quit: `q`, escape.
pub fn action_for_key(k: KeyInput) -> (r: Action)
    ensures
        r == action_spec(k),
{
    match k {
        KeyInput::Char('q') | KeyInput::Esc => Action::Quit,
        KeyInput::Right | KeyInput::Char('l') | KeyInput::Char(' ') => Action::NextPage,
        KeyInput::Left | KeyInput::Char('h') => Action::PrevPage,
        KeyInput::Char('j') | KeyInput::Down => Action::ScrollDown(1),
        KeyInput::Char('k') | KeyInput::Up => Action::ScrollUp(1),
        KeyInput::Char('d') => Action::ScrollDown(10),
        KeyInput::Char('u') => Action::ScrollUp(10),
        _ => Action::Ignore,
    }
}

/// The presentation's state. `transitions` holds each slide's entrance;
/// an empty deck has one page of scroll state and no current slide.
pub struct Presenter {
    pub current_page: usize,
    pub scroll_offsets: Vec<u16>,
    pub quit: bool,
    pub transitions: Vec<TransitionKind>,
    pub effect: Option<TransitionState>,
}

pub open spec fn sat_add(a: u16, b: u16) -> u16 {
    if a + b > u16::MAX {
        u16::MAX
    } else {
        (a + b) as u16
    }
}

pub open spec fn sat_sub(a: u16, b: u16) -> u16 {
    if a < b {
        0
    } else {
        (a - b) as u16
    }
}

impl Presenter {
    pub open spec fn wf(&self) -> bool {
        &&& self.scroll_offsets@.len() == if self.transitions@.len() > 0 {
            self.transitions@.len()
        } else {
            1
        }
        &&& self.current_page < self.scroll_offsets@.len()
    }

    /// The effect that entering `page` starts.
    pub open spec fn entrance(&self, page: int, rows: u16) -> TransitionState {
        TransitionState {
            kind: self.transitions@[page],
            duration_ms: duration_spec(self.transitions@[page], rows) as u64,
            elapsed_ms: 0,
        }
    }

    /// Starts on the first page, with its entrance transition if there is a
    /// first slide.
    pub fn new(transitions: Vec<TransitionKind>, rows: u16) -> (r: Presenter)
        ensures
            r.wf(),
            r.current_page == 0,
            !r.quit,
            r.transitions@ == transitions@,
            forall|i: int| 0 <= i < r.scroll_offsets@.len() ==> r.scroll_offsets@[i] == 0,
            transitions@.len() > 0 ==> r.effect == Some(r.entrance(0, rows)),
            transitions@.len() == 0 ==> r.effect is None,
    {
        let n = if transitions.len() > 0 {
            transitions.len()
        } else {
            1
        };
        let mut scroll_offsets: Vec<u16> = Vec::new();
        let mut i: usize = 0;
        while i < n
            invariant
                i <= n,
                scroll_offsets@.len() == i,
                forall|k: int| 0 <= k < i ==> scroll_offsets@[k] == 0,
            decreases n - i,
        {
            scroll_offsets.push(0);
            i = i + 1;
        }
        let effect = if transitions.len() > 0 {
            Some(TransitionState::start(transitions[0], rows))
        } else {
            None
        };
        Presenter { current_page: 0, scroll_offsets, quit: false, transitions, effect }
    }

    pub fn total_pages(&self) -> (r: usize)
        ensures
            r == self.transitions@.len(),
    {
        self.transitions.len()
    }

    /// The current page's scroll offset.
    pub fn scroll_offset(&self) -> (r: u16)
        requires
            self.wf(),
        ensures
            r == self.scroll_offsets@[self.current_page as int],
    {
        self.scroll_offsets[self.current_page]
    }

    /// Moves to `page` if it exists and is not the current one, starting
    /// its entrance transition; otherwise changes nothing.
    pub fn goto_page(&mut self, page: usize, rows: u16)
        requires
            old(self).wf(),
        ensures
            final(self).wf(),
            final(self).scroll_offsets@ == old(self).scroll_offsets@,
            final(self).transitions@ == old(self).transitions@,
            final(self).quit == old(self).quit,
            (page < old(self).transitions@.len() && page != old(self).current_page) ==> final(self).current_page == page && final(self).effect == Some(old(self).entrance(page as int, rows)),
            !(page < old(self).transitions@.len() && page != old(self).current_page) ==> final(self).current_page == old(self).current_page && final(self).effect == old(self).effect,
    {
        if page < self.transitions.len() && page != self.current_page {
            self.current_page = page;
            self.effect = Some(TransitionState::start(self.transitions[page], rows));
        }
    }

    pub fn next_page(&mut self, rows: u16)
        requires
            old(self).wf(),
        ensures
            final(self).wf(),
            final(self).quit == old(self).quit,
            final(self).scroll_offsets@ == old(self).scroll_offsets@,
            final(self).transitions@ == old(self).transitions@,
            old(self).current_page + 1 < old(self).transitions@.len() ==> final(self).current_page
                == old(self).current_page + 1 && final(self).effect == Some(
                old(self).entrance(old(self).current_page + 1, rows),
            ),
            old(self).current_page + 1 >= old(self).transitions@.len() ==> final(self).current_page
                == old(self).current_page && final(self).effect == old(self).effect,
    {
        if self.current_page < self.scroll_offsets.len() {
            let next = self.current_page + 1;
            self.goto_page(next, rows);
        }
    }

    pub fn prev_page(&mut self, rows: u16)
        requires
            old(self).wf(),
        ensures
            final(self).wf(),
            final(self).quit == old(self).quit,
            final(self).scroll_offsets@ == old(self).scroll_offsets@,
            final(self).transitions@ == old(self).transitions@,
            old(self).current_page > 0 ==> final(self).current_page == old(self).current_page - 1
                && final(self).effect == Some(old(self).entrance(old(self).current_page - 1, rows)),
            old(self).current_page == 0 ==> final(self).current_page == 0 && final(self).effect
                == old(self).effect,
    {
        if self.current_page > 0 {
            self.goto_page(self.current_page - 1, rows);
        }
    }

    /// Sets the current page's scroll offset.
    fn set_scroll(&mut self, v: u16)
        requires
            old(self).wf(),
        ensures
            final(self).wf(),
            final(self).scroll_offsets@ == old(self).scroll_offsets@.update(
                old(self).current_page as int,
                v,
            ),
            final(self).current_page == old(self).current_page,
            final(self).transitions@ == old(self).transitions@,
            final(self).effect == old(self).effect,
            final(self).quit == old(self).quit,
    {
        let p = self.current_page;
        self.scroll_offsets.set(p, v);
    }

    /// Performs a key's action: quit, turn a page, or scroll the current
    /// page (saturating at zero and at the `u16` range).
    pub fn handle_key(&mut self, k: KeyInput, rows: u16)
        requires
            old(self).wf(),
        ensures
            final(self).wf(),
            final(self).transitions@ == old(self).transitions@,
            final(self).quit == (old(self).quit || action_spec(k) == Action::Quit),
            match action_spec(k) {
                Action::ScrollDown(n) => final(self).scroll_offsets@ == old(self).scroll_offsets@.update(
                    old(self).current_page as int,
                    sat_add(old(self).scroll_offsets@[old(self).current_page as int], n),
                ),
                Action::ScrollUp(n) => final(self).scroll_offsets@ == old(self).scroll_offsets@.update(
                    old(self).current_page as int,
                    sat_sub(old(self).scroll_offsets@[old(self).current_page as int], n),
                ),
                _ => final(self).scroll_offsets@ == old(self).scroll_offsets@,
            },
            match action_spec(k) {
                Action::NextPage => if old(self).current_page + 1 < old(self).transitions@.len() {
                    final(self).current_page == old(self).current_page + 1 && final(self).effect
                        == Some(old(self).entrance(old(self).current_page + 1, rows))
                } else {
                    final(self).current_page == old(self).current_page && final(self).effect == old(self).effect
                },
                Action::PrevPage => if old(self).current_page > 0 {
                    final(self).current_page == old(self).current_page - 1 && final(self).effect
                        == Some(old(self).entrance(old(self).current_page - 1, rows))
                } else {
                    final(self).current_page == 0 && final(self).effect == old(self).effect
                },
                _ => final(self).current_page == old(self).current_page && final(self).effect == old(self).effect,
            },
    {
        match action_for_key(k) {
            Action::Quit => {
                self.quit = true;
            },
            Action::NextPage => self.next_page(rows),
            Action::PrevPage => self.prev_page(rows),
            Action::ScrollDown(n) => {
                let s = self.scroll_offset();
                self.set_scroll(s.saturating_add(n));
            },
            Action::ScrollUp(n) => {
                let s = self.scroll_offset();
                self.set_scroll(s.saturating_sub(n));
            },
            Action::Ignore => {},
        }
    }

    /// Lets one frame's time pass: a transition that has run its duration
    /// ends.
    pub fn tick(&mut self, delta_ms: u64)
        requires
            old(self).wf(),
        ensures
            final(self).wf(),
            final(self).quit == old(self).quit,
            final(self).current_page == old(self).current_page,
            final(self).scroll_offsets@ == old(self).scroll_offsets@,
            final(self).transitions@ == old(self).transitions@,
            old(self).effect is None ==> final(self).effect is None,
            old(self).effect matches Some(e) ==> ({
                let t = if e.elapsed_ms + delta_ms > u64::MAX {
                    u64::MAX as int
                } else {
                    e.elapsed_ms + delta_ms
                };
                if t >= e.duration_ms {
                    final(self).effect is None
                } else {
                    final(self).effect == Some(TransitionState { elapsed_ms: t as u64, ..e })
                }
            }),
    {
        match self.effect {
            Some(e) => {
                let mut e = e;
                e.advance(delta_ms);
                if e.is_done() {
                    self.effect = None;
                } else {
                    self.effect = Some(e);
                }
            },
            None => {},
        }
    }
}

} // verus!
