use std::collections::VecDeque;
use vstd::prelude::*;

verus! {

/// Counts the frames of the last while: the times of the frames that lie
/// within a window before the newest one.
///
/// Times are in nanoseconds since a start that the caller chooses.
pub struct FpsCounter {
    timestamps: VecDeque<u64>,
    window_duration: u64,
}

/// The times that stay when the time is `now`: those from the front that
/// lie more than the window before `now` go, up to the first one that does
/// not.
pub open spec fn within_window(timestamps: Seq<u64>, now: u64, window: u64) -> Seq<u64>
    decreases timestamps.len(),
{
    if timestamps.len() > 0 && now - timestamps[0] > window {
        within_window(timestamps.drop_first(), now, window)
    } else {
        timestamps
    }
}

/// What stays is the end of what there was, and nothing at its front is
/// older than the window.
pub proof fn lemma_within_window(timestamps: Seq<u64>, now: u64, window: u64)
    ensures
        ({
            let kept = within_window(timestamps, now, window);
            &&& kept.len() <= timestamps.len()
            &&& kept == timestamps.skip(timestamps.len() - kept.len())
            &&& kept.len() > 0 ==> now - kept[0] <= window
            &&& forall|i: int|
                0 <= i < timestamps.len() - kept.len() ==> now - #[trigger] timestamps[i] > window
        }),
    decreases timestamps.len(),
{
    if timestamps.len() > 0 && now - timestamps[0] > window {
        let rest = timestamps.drop_first();
        lemma_within_window(rest, now, window);
        let kept = within_window(rest, now, window);
        assert(rest.skip(rest.len() - kept.len()) == timestamps.skip(
            timestamps.len() - kept.len(),
        ));
        assert forall|i: int| 0 <= i < timestamps.len() - kept.len() implies now
            - #[trigger] timestamps[i] > window by {
            if i > 0 {
                assert(timestamps[i] == rest[i - 1]);
            }
        }
    } else {
        assert(timestamps.skip(0) == timestamps);
    }
}

impl FpsCounter {
    /// The times of the frames that count, oldest first.
    pub closed spec fn view(&self) -> Seq<u64> {
        self.timestamps@
    }

    /// The length of the window.
    pub closed spec fn window(&self) -> u64 {
        self.window_duration
    }

    pub fn new(window_duration: u64) -> (counter: Self)
        ensures
            counter@ == Seq::<u64>::empty(),
            counter.window() == window_duration,
    {
        Self { timestamps: VecDeque::new(), window_duration }
    }

    /// Counts a frame at the time `now` and lets go of the frames that
    /// have left the window: see [`within_window`].
    pub fn update(&mut self, now: u64)
        ensures
            final(self)@ == within_window(old(self)@.push(now), now, old(self).window()),
            final(self).window() == old(self).window(),
    {
        self.timestamps.push_back(now);
        loop
            invariant
                self.window_duration == old(self).window_duration,
                within_window(self.timestamps@, now, self.window_duration) == within_window(
                    old(self)@.push(now),
                    now,
                    old(self).window(),
                ),
            ensures
                self.timestamps@ == within_window(
                    old(self)@.push(now),
                    now,
                    old(self).window(),
                ),
                self.window_duration == old(self).window_duration,
            decreases self.timestamps@.len(),
        {
            if self.timestamps.len() == 0 {
                break ;
            }
            let oldest: u64 = self.timestamps[0];
            if now > oldest && now - oldest > self.window_duration {
                self.timestamps.pop_front();
            } else {
                break ;
            }
        }
    }

    /// The frames since the oldest one that counts, and the time they
    /// took: their quotient is the frame rate. There is none before the
    /// second frame, nor while no time has passed.
    pub fn rate(&self) -> (rate: Option<(usize, u64)>)
        ensures
            match rate {
                Some((frames, span)) => {
                    &&& self@.len() >= 2
                    &&& frames == self@.len() - 1
                    &&& span == self@.last() - self@[0]
                    &&& span > 0
                },
                None => self@.len() < 2 || self@.last() <= self@[0],
            },
    {
        let n = self.timestamps.len();
        if n < 2 {
            return None;
        }
        let oldest: u64 = self.timestamps[0];
        let newest: u64 = self.timestamps[n - 1];
        if newest <= oldest {
            return None;
        }
        Some((n - 1, newest - oldest))
    }
}

} // verus!
