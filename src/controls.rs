use vstd::prelude::*;
use std::collections::VecDeque;

verus! {

/// The rate at which the animation starts.
pub const START_FPS: i32 = 24;

/// The highest rate the keys can reach.
pub const MAX_FPS: i32 = 30;

/// A request from the user, served on a later tick.
#[derive(Clone, Copy, Debug, PartialEq, Eq, Structural)]
pub enum UserRequestType {
    NewPty,
}

/// What the host must do after a key.
#[derive(Clone, Copy, Debug, PartialEq, Eq, Structural)]
pub enum KeyAction {
    Continue,
    Quit,
}

/// The rate after `key` at rate `fps` under ceiling `max_fps`: `j` slows down
/// to no less than 1, `k` speeds up to no more than the ceiling.
pub open spec fn fps_after_key(fps: i32, max_fps: i32, key: char) -> i32 {
    if key == 'j' && fps > 1 {
        (fps - 1) as i32
    } else if key == 'k' && fps < max_fps {
        (fps + 1) as i32
    } else {
        fps
    }
}

/// The rate after each of `keys` in turn.
pub open spec fn fps_after_keys(fps: i32, max_fps: i32, keys: Seq<char>) -> i32
    decreases keys.len(),
{
    if keys.len() == 0 {
        fps
    } else {
        fps_after_key(fps_after_keys(fps, max_fps, keys.drop_last()), max_fps, keys.last())
    }
}

/// However many keys are pressed, the rate stays between 1 and its ceiling.
pub proof fn lemma_fps_stays_in_range(fps: i32, max_fps: i32, keys: Seq<char>)
    requires
        1 <= fps <= max_fps,
    ensures
        1 <= fps_after_keys(fps, max_fps, keys) <= max_fps,
    decreases keys.len(),
{
    if keys.len() > 0 {
        lemma_fps_stays_in_range(fps, max_fps, keys.drop_last());
    }
}

/// State of the controlling component: the animation rate, the text to show
/// and the requests that wait to be served.
pub struct UIMainState {
    command_queue: VecDeque<UserRequestType>,
    fps: i32,
    max_fps: i32,
    output: String,
}

impl UIMainState {
    pub closed spec fn spec_fps(&self) -> i32 {
        self.fps
    }

    pub closed spec fn spec_max_fps(&self) -> i32 {
        self.max_fps
    }

    pub closed spec fn spec_output(&self) -> Seq<char> {
        self.output@
    }

    /// Requests in the order they are served.
    pub closed spec fn pending(&self) -> Seq<UserRequestType> {
        self.command_queue@
    }

    pub open spec fn wf(&self) -> bool {
        1 <= self.spec_fps() <= self.spec_max_fps()
    }

    /// Starting rate, default ceiling, no text and no requests.
    pub fn new() -> (r: UIMainState)
        ensures
            r.wf(),
            r.spec_fps() == START_FPS,
            r.spec_max_fps() == MAX_FPS,
            r.spec_output() == Seq::<char>::empty(),
            r.pending() == Seq::<UserRequestType>::empty(),
    {
        UIMainState { command_queue: VecDeque::new(), fps: START_FPS, max_fps: MAX_FPS, output: String::new() }
    }

    /// As `new`, showing `test_output`.
    pub fn with_test_output(test_output: String) -> (r: UIMainState)
        ensures
            r.wf(),
            r.spec_fps() == START_FPS,
            r.spec_max_fps() == MAX_FPS,
            r.spec_output() == test_output@,
            r.pending() == Seq::<UserRequestType>::empty(),
    {
        UIMainState { command_queue: VecDeque::new(), fps: START_FPS, max_fps: MAX_FPS, output: test_output }
    }

    /// As `new`, with a ceiling of `max_fps` on the rate; a starting rate
    /// above it is brought down to it.
    pub fn with_max_fps(max_fps: i32) -> (r: UIMainState)
        requires
            max_fps >= 1,
        ensures
            r.wf(),
            r.spec_fps() == if START_FPS <= max_fps {
                START_FPS
            } else {
                max_fps
            },
            r.spec_max_fps() == max_fps,
            r.spec_output() == Seq::<char>::empty(),
            r.pending() == Seq::<UserRequestType>::empty(),
    {
        let fps = if START_FPS <= max_fps {
            START_FPS
        } else {
            max_fps
        };
        UIMainState { command_queue: VecDeque::new(), fps, max_fps, output: String::new() }
    }

    pub fn fps(&self) -> (r: i32)
        ensures
            r == self.spec_fps(),
    {
        self.fps
    }

    pub fn max_fps(&self) -> (r: i32)
        ensures
            r == self.spec_max_fps(),
    {
        self.max_fps
    }

    pub fn output(&self) -> (r: &String)
        ensures
            r@ == self.spec_output(),
    {
        &self.output
    }

    /// Queues a request for a new terminal session, served after those
    /// already waiting.
    pub fn request_new_pty(&mut self)
        ensures
            final(self).pending() == old(self).pending().push(UserRequestType::NewPty),
            final(self).spec_fps() == old(self).spec_fps(),
            final(self).spec_max_fps() == old(self).spec_max_fps(),
            final(self).spec_output() == old(self).spec_output(),
    {
        self.command_queue.push_back(UserRequestType::NewPty);
    }

    /// The request that has waited longest, taken off the queue.
    pub fn take_request(&mut self) -> (r: Option<UserRequestType>)
        ensures
            old(self).pending().len() == 0 ==> r is None && final(self).pending() == old(
                self,
            ).pending(),
            old(self).pending().len() > 0 ==> r == Some(old(self).pending()[0])
                && final(self).pending() == old(self).pending().drop_first(),
            final(self).spec_fps() == old(self).spec_fps(),
            final(self).spec_max_fps() == old(self).spec_max_fps(),
            final(self).spec_output() == old(self).spec_output(),
    {
        let r = self.command_queue.pop_front();
        proof {
            if old(self).pending().len() > 0 {
                assert(old(self).pending().subrange(1, old(self).pending().len() as int)
                    =~= old(self).pending().drop_first());
            }
        }
        r
    }

    /// Reacts to a key: `j` slows the animation down (not below 1), `k`
    /// speeds it up (not above the ceiling), `n` queues a request for a new
    /// terminal session and `q` asks the host to stop. Other keys do nothing.
    pub fn on_key(&mut self, key: char) -> (r: KeyAction)
        requires
            old(self).wf(),
        ensures
            final(self).wf(),
            final(self).spec_fps() == fps_after_key(old(self).spec_fps(), old(self).spec_max_fps(), key),
            final(self).spec_max_fps() == old(self).spec_max_fps(),
            final(self).spec_output() == old(self).spec_output(),
            final(self).pending() == if key == 'n' {
                old(self).pending().push(UserRequestType::NewPty)
            } else {
                old(self).pending()
            },
            r == if key == 'q' {
                KeyAction::Quit
            } else {
                KeyAction::Continue
            },
    {
        if key == 'j' {
            if self.fps > 1 {
                self.fps = self.fps - 1;
            }
        } else if key == 'k' {
            if self.fps < self.max_fps {
                self.fps = self.fps + 1;
            }
        } else if key == 'n' {
            self.request_new_pty();
        } else if key == 'q' {
            return KeyAction::Quit;
        }
        KeyAction::Continue
    }
}

} // verus!
