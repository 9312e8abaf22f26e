//! The feed of responses that the interface shows, and the window on it.

use vstd::prelude::*;

use crate::response::Response;

verus! {

/// How many entries of the feed the screen shows at once, and how far one scroll moves.
pub const MAX_ITEMS_ON_SCREEN: usize = 5;

/// The capacity of a new feed.
pub const INITIAL_FEED_CAPACITY: usize = 20;

/// Application state.
#[derive(Debug)]
pub struct App {
    /// Is the application running?
    pub running: bool,
    /// Messages received from the relay, oldest first.
    pub feed: Vec<Response>,
    /// How many entries the feed holds before new ones push old ones out.
    pub feed_capacity: usize,
    /// The first index of the window.
    pub current_min_index: usize,
    /// The last index of the window.
    pub current_max_index: usize,
    /// What the user has typed and not yet sent.
    pub input_box: Option<String>,
}

/// `a + b`, or the largest `usize` where the sum does not fit.
pub open spec fn capped_sum(a: usize, b: usize) -> usize {
    if a + b > usize::MAX {
        usize::MAX
    } else {
        (a + b) as usize
    }
}

/// How many of the oldest entries leave a feed of `held` entries with capacity
/// `capacity` when `incoming` arrive: none while all fit, else as many as arrive, and
/// never more than are held.
pub open spec fn evicted(held: nat, capacity: nat, incoming: nat) -> nat {
    if held + incoming > capacity {
        if incoming < held {
            incoming
        } else {
            held
        }
    } else {
        0
    }
}

impl Default for App {
    fn default() -> (app: Self)
        ensures
            app.running,
            app.feed@.len() == 0,
            app.feed_capacity == INITIAL_FEED_CAPACITY,
            app.current_min_index == 0,
            app.current_max_index == 0,
            app.input_box is None,
    {
        Self {
            running: true,
            feed: Vec::new(),
            feed_capacity: INITIAL_FEED_CAPACITY,
            current_min_index: 0,
            current_max_index: 0,
            input_box: None,
        }
    }
}

impl App {
    /// A running application with an empty feed.
    pub fn new() -> (app: Self)
        ensures
            app.running,
            app.feed@.len() == 0,
            app.feed_capacity == INITIAL_FEED_CAPACITY,
            app.current_min_index == 0,
            app.current_max_index == 0,
            app.input_box is None,
    {
        Self {
            running: true,
            feed: Vec::new(),
            feed_capacity: INITIAL_FEED_CAPACITY,
            current_min_index: 0,
            current_max_index: 0,
            input_box: None,
        }
    }

    /// Handles the tick event of the terminal: nothing changes.
    pub fn tick(&self) {
    }

    /// Stops the application; the feed and the window stay.
    pub fn quit(&mut self)
        ensures
            !final(self).running,
            final(self).feed == old(self).feed,
            final(self).feed_capacity == old(self).feed_capacity,
            final(self).current_min_index == old(self).current_min_index,
            final(self).current_max_index == old(self).current_max_index,
            final(self).input_box == old(self).input_box,
    {
        self.running = false;
    }

    /// Moves `events` to the end of the feed. Where the feed would hold more than its
    /// capacity, as many of the oldest entries leave first as events arrive. The window
    /// then starts where it ended and is as long as the events that arrived.
    pub fn add_events(&mut self, events: &mut Vec<Response>)
        ensures
            final(events)@.len() == 0,
            final(self).feed@ == old(self).feed@.skip(
                evicted(
                    old(self).feed@.len(),
                    old(self).feed_capacity as nat,
                    old(events)@.len(),
                ) as int,
            ) + old(events)@,
            final(self).feed_capacity == old(self).feed_capacity,
            final(self).current_min_index == old(self).current_max_index,
            final(self).current_max_index == capped_sum(
                old(self).current_max_index,
                if old(events)@.len() == 0 {
                    0usize
                } else {
                    (old(events)@.len() - 1) as usize
                },
            ),
            final(self).running == old(self).running,
            final(self).input_box == old(self).input_box,
    {
        let arriving = events.len();
        let held = self.feed.len();
        let full = match held.checked_add(arriving) {
            Some(sum) => sum > self.feed_capacity,
            None => true,
        };
        if full {
            let leaving = if arriving < held {
                arriving
            } else {
                held
            };
            let kept = self.feed.split_off(leaving);
            self.feed = kept;
        }
        assert(self.feed@ =~= old(self).feed@.skip(
            evicted(old(self).feed@.len(), old(self).feed_capacity as nat, old(events)@.len()) as int,
        ));
        self.feed.append(events);
        self.current_min_index = self.current_max_index;
        self.current_max_index = self.current_max_index.saturating_add(
            arriving.saturating_sub(1),
        );
    }

    /// Moves the window up by one screen, not past the start of the feed.
    pub fn scroll_up(&mut self)
        ensures
            final(self).current_min_index == if old(self).current_min_index
                >= MAX_ITEMS_ON_SCREEN {
                (old(self).current_min_index - MAX_ITEMS_ON_SCREEN) as usize
            } else {
                0usize
            },
            final(self).current_max_index == final(self).current_min_index + MAX_ITEMS_ON_SCREEN,
            final(self).running == old(self).running,
            final(self).feed == old(self).feed,
            final(self).feed_capacity == old(self).feed_capacity,
            final(self).input_box == old(self).input_box,
    {
        self.current_min_index = match self.current_min_index.checked_sub(MAX_ITEMS_ON_SCREEN) {
            Some(index) => index,
            None => 0,
        };
        self.current_max_index = self.current_min_index + MAX_ITEMS_ON_SCREEN;
    }

    /// Moves the window down by one screen: it starts where it ended. Where the new end
    /// does not fit in a `usize`, the window ends at the last entry of the feed.
    pub fn scroll_down(&mut self)
        ensures
            final(self).current_min_index == old(self).current_max_index,
            final(self).current_max_index == if old(self).current_max_index
                + MAX_ITEMS_ON_SCREEN <= usize::MAX {
                (old(self).current_max_index + MAX_ITEMS_ON_SCREEN) as usize
            } else if old(self).feed@.len() == 0 {
                0usize
            } else {
                (old(self).feed@.len() - 1) as usize
            },
            final(self).running == old(self).running,
            final(self).feed == old(self).feed,
            final(self).feed_capacity == old(self).feed_capacity,
            final(self).input_box == old(self).input_box,
    {
        let end = self.current_max_index;
        self.current_max_index = match end.checked_add(MAX_ITEMS_ON_SCREEN) {
            Some(index) => index,
            None => self.feed.len().saturating_sub(1),
        };
        self.current_min_index = end;
    }
}

} // verus!
