//! Functions that are called for the keys they were registered for.

use vstd::prelude::*;

verus! {

/// The places of `key` among the first `upto` registered keys, in ascending
/// order.
pub open spec fn places_of(keys: Seq<char>, key: char, upto: int) -> Seq<int>
    decreases upto,
{
    if upto <= 0 {
        Seq::empty()
    } else if keys[upto - 1] == key {
        places_of(keys, key, upto - 1).push(upto - 1)
    } else {
        places_of(keys, key, upto - 1)
    }
}

/// The listeners with the key each was registered for, in the order of
/// their registration.
pub struct KeyboardListener<F> {
    pub keys: Vec<char>,
    pub callbacks: Vec<F>,
}

impl<F> KeyboardListener<F> {
    /// Each listener has its key.
    pub open spec fn wf(&self) -> bool {
        self.keys@.len() == self.callbacks@.len()
    }

    /// A registry without listeners.
    pub fn new() -> (r: Self)
        ensures
            r.wf(),
            r.keys@.len() == 0,
    {
        KeyboardListener { keys: Vec::new(), callbacks: Vec::new() }
    }

    /// Registers `callback` for `key`, after the listeners there already.
    pub fn add_listener(&mut self, key: char, callback: F)
        requires
            old(self).wf(),
        ensures
            final(self).wf(),
            final(self).keys@ == old(self).keys@.push(key),
            final(self).callbacks@ == old(self).callbacks@.push(callback),
    {
        self.keys.push(key);
        self.callbacks.push(callback);
    }

    /// Calls the listeners of the pending key, if there is one, in the
    /// order of their registration, and returns what they returned.
    pub fn listen<R>(&self, pending: Option<char>) -> (r: Vec<R>) where F: Fn(char) -> R
        requires
            self.wf(),
            forall|i: int, key: char|
                0 <= i < self.callbacks@.len() ==> call_requires(self.callbacks@[i], (key,)),
        ensures
            match pending {
                Some(key) => {
                    let places = places_of(self.keys@, key, self.keys@.len() as int);
                    &&& r@.len() == places.len()
                    &&& forall|j: int|
                        #![trigger places[j]]
                        0 <= j < r@.len() ==> 0 <= places[j] < self.callbacks@.len()
                            && call_ensures(self.callbacks@[places[j]], (key,), r@[j])
                },
                None => r@.len() == 0,
            },
    {
        let mut results: Vec<R> = Vec::new();
        let key = match pending {
            Some(key) => key,
            None => {
                return results;
            },
        };
        let mut index: usize = 0;
        let ghost mut places: Seq<int> = Seq::empty();
        while index < self.keys.len()
            invariant
                index <= self.keys.len(),
                self.wf(),
                forall|i: int, key: char|
                    0 <= i < self.callbacks@.len() ==> call_requires(self.callbacks@[i], (key,)),
                places == places_of(self.keys@, key, index as int),
                results@.len() == places.len(),
                forall|j: int|
                    #![trigger places[j]]
                    0 <= j < results@.len() ==> 0 <= places[j] < index && call_ensures(
                        self.callbacks@[places[j]],
                        (key,),
                        results@[j],
                    ),
            decreases self.keys.len() - index,
        {
            if self.keys[index] == key {
                let result = (self.callbacks[index])(key);
                let ghost earlier = results@;
                let ghost earlier_places = places;
                results.push(result);
                proof {
                    places = places.push(index as int);
                    assert forall|j: int| #![trigger places[j]] 0 <= j < results@.len() implies 0
                        <= places[j] < index + 1 && call_ensures(
                        self.callbacks@[places[j]],
                        (key,),
                        results@[j],
                    ) by {
                        if j < earlier.len() {
                            assert(places[j] == earlier_places[j]);
                            assert(results@[j] == earlier[j]);
                        }
                    }
                }
            }
            index += 1;
        }
        results
    }
}

} // verus!
