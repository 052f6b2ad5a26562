//! Debounced observation of one value across polling ticks.

use vstd::prelude::*;

verus! {

/// Two consecutive samples of one observed value.
#[derive(Clone, Copy, Debug, PartialEq, Eq)]
pub struct Pair<T> {
    /// The sample of the tick before the latest one.
    pub old: T,
    /// The sample of the latest tick.
    pub current: T,
}

/// The last samples of one observed value. Every state is meaningful: nothing
/// seen yet, one sample seen, or the two most recent samples.
#[derive(Clone, Copy, Debug, PartialEq, Eq)]
pub enum Watcher<T> {
    /// No sample has been taken.
    Empty,
    /// Exactly one sample has been taken; there is nothing to compare it with.
    Single(T),
    /// At least two samples have been taken; the pair holds the last two.
    Paired(Pair<T>),
}

/// The watcher that results from feeding `inputs`, first to last, to `start`.
pub open spec fn feed<T>(start: Watcher<T>, inputs: Seq<T>) -> Watcher<T>
    decreases inputs.len(),
{
    if inputs.len() == 0 {
        start
    } else {
        feed(start, inputs.drop_last()).updated(inputs.last())
    }
}

/// A watcher is seen through the pair it offers: the last two samples,
/// available once two were taken.
impl<T> View for Watcher<T> {
    type V = Option<Pair<T>>;

    open spec fn view(&self) -> Option<Pair<T>> {
        match *self {
            Watcher::Paired(pair) => Some(pair),
            _ => None,
        }
    }
}

impl<T> Watcher<T> {
    /// The most recent sample, if any was taken.
    pub open spec fn latest(self) -> Option<T> {
        match self {
            Watcher::Empty => None,
            Watcher::Single(value) => Some(value),
            Watcher::Paired(pair) => Some(pair.current),
        }
    }

    /// The watcher after one more sample: the latest sample becomes the old
    /// one, and `value` the current one.
    pub open spec fn updated(self, value: T) -> Watcher<T> {
        match self.latest() {
            None => Watcher::Single(value),
            Some(previous) => Watcher::Paired(Pair { old: previous, current: value }),
        }
    }

    /// A watcher that has seen nothing.
    pub fn new() -> (watcher: Self)
        ensures
            watcher == Watcher::<T>::Empty,
    {
        Watcher::Empty
    }
}

impl<T: Copy> Watcher<T> {
    /// Records `value` as the sample of this tick.
    pub fn update(&mut self, value: T)
        ensures
            *final(self) == old(self).updated(value),
    {
        let next = match *self {
            Watcher::Empty => Watcher::Single(value),
            Watcher::Single(previous) => Watcher::Paired(Pair { old: previous, current: value }),
            Watcher::Paired(pair) => Watcher::Paired(Pair { old: pair.current, current: value }),
        };
        *self = next;
    }

    /// The last two samples, or `None` while fewer than two were taken.
    pub fn pair(&self) -> (pair: Option<Pair<T>>)
        ensures
            pair == self@,
    {
        match *self {
            Watcher::Paired(pair) => Some(pair),
            _ => None,
        }
    }
}

impl<T> Default for Watcher<T> {
    fn default() -> (watcher: Self)
        ensures
            watcher == Watcher::<T>::Empty,
    {
        Watcher::Empty
    }
}

/// After a single sample nothing can be compared yet, whatever the sample.
pub proof fn lemma_unavailable_after_one<T>(inputs: Seq<T>)
    requires
        inputs.len() <= 1,
    ensures
        feed(Watcher::Empty, inputs)@ == None::<Pair<T>>,
{
    if inputs.len() == 1 {
        assert(inputs.drop_last().len() == 0);
        assert(feed(Watcher::Empty, inputs.drop_last()) == Watcher::<T>::Empty);
    }
}

/// After two or more samples the pair is available, whatever the watcher had
/// seen before: `current` is the last sample and `old` the one before it.
pub proof fn lemma_available_after_two<T>(start: Watcher<T>, inputs: Seq<T>)
    requires
        inputs.len() >= 2,
    ensures
        feed(start, inputs)@ == Some(
            Pair { old: inputs[inputs.len() - 2], current: inputs[inputs.len() - 1] },
        ),
{
    let init = inputs.drop_last();
    let before = feed(start, init.drop_last());
    assert(feed(start, init) == before.updated(init.last()));
    assert(feed(start, inputs) == feed(start, init).updated(inputs.last()));
    assert(init.last() == inputs[inputs.len() - 2]);
}

/// After any sample the latest value is that sample.
pub proof fn lemma_latest_is_last<T>(start: Watcher<T>, inputs: Seq<T>)
    requires
        inputs.len() >= 1,
    ensures
        feed(start, inputs).latest() == Some(inputs.last()),
{
}

} // verus!
