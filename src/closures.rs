//! Closures: capturing the environment, caching a computation, and
//! iterating by hand.
use vstd::prelude::*;
use vstd::string::StringExecFns;

verus! {

/// Holds a computation and the first result it produced, so that the
/// computation runs at most once.
pub struct Cacher<T> where T: Fn(u32) -> u32 {
    calculation: T,
    value: Option<u32>,
}

impl<T> Cacher<T> where T: Fn(u32) -> u32 {
    /// The computation held.
    pub closed spec fn calc(&self) -> T {
        self.calculation
    }

    /// The cached result, if the computation has run.
    pub closed spec fn cached(&self) -> Option<u32> {
        self.value
    }

    /// A cache around `calculation`; nothing is computed yet.
    pub fn new(calculation: T) -> (r: Cacher<T>)
        ensures
            r.calc() == calculation,
            r.cached() is None,
    {
        Cacher { calculation, value: None }
    }

    /// The cached result, or, on the first call, the result of running the
    /// computation on `arg`, which is then kept.
    pub fn value(&mut self, arg: u32) -> (r: u32)
        requires
            old(self).cached() is None ==> old(self).calc().requires((arg,)),
        ensures
            final(self).calc() == old(self).calc(),
            final(self).cached() == Some(r),
            match old(self).cached() {
                Some(v) => r == v,
                None => old(self).calc().ensures((arg,), r),
            },
    {
        match self.value {
            Some(v) => v,
            None => {
                let v = (self.calculation)(arg);
                self.value = Some(v);
                v
            },
        }
    }
}

/// A day's exercise plan.
#[derive(Debug, Clone, Copy, PartialEq, Eq, Structural)]
pub enum Workout {
    /// Push-ups then sit-ups, as many of each.
    Strength { pushups: u32, situps: u32 },
    /// A day off.
    Rest,
    /// A run of some minutes.
    Run { minutes: u32 },
}

/// Plans a workout. Low intensity means strength work, where both counts
/// come from one run of `calculation`; high intensity means a run, unless
/// `random_number` is 3, which means a rest day. `calculation` runs at most
/// once.
pub fn generate_workout<T>(intensity: u32, random_number: u32, calculation: T) -> (r: Workout)
    where T: Fn(u32) -> u32,
    requires
        calculation.requires((intensity,)),
    ensures
        intensity < 25 ==> (r matches Workout::Strength { pushups, situps } && pushups == situps
            && calculation.ensures((intensity,), pushups)),
        intensity >= 25 && random_number == 3 ==> r == Workout::Rest,
        intensity >= 25 && random_number != 3 ==> (r matches Workout::Run { minutes }
            && calculation.ensures((intensity,), minutes)),
{
    let mut expensive_result = Cacher::new(calculation);
    if intensity < 25 {
        let pushups = expensive_result.value(intensity);
        let situps = expensive_result.value(intensity);
        Workout::Strength { pushups, situps }
    } else if random_number == 3 {
        Workout::Rest
    } else {
        Workout::Run { minutes: expensive_result.value(intensity) }
    }
}

/// A closure takes the type of its first use.
pub fn error_example() {
    let example_closure = |x: String| -> (r: String)
        ensures
            r == x,
        { x };
    let s = example_closure(String::from_str("hello"));
}

/// A closure can read a variable of its scope.
pub fn capture_environment() {
    let x: i32 = 4;
    let equal_to_x = |z: i32| -> (r: bool)
        ensures
            r == (z == x),
        { z == x };
    let y: i32 = 4;
    let same = equal_to_x(y);
    assert(same);
}

/// A `move` closure takes ownership of what it captures.
pub fn move_example() {
    let x: Vec<i32> = vec![1, 2, 3];
    let equal_to_x = move |z: Vec<i32>| -> (r: bool)
        ensures
            r == (z@ == x@),
        {
            let n = z.len();
            if n != x.len() {
                return false;
            }
            let mut i: usize = 0;
            while i < n
                invariant
                    n == z@.len() == x@.len(),
                    i <= n,
                    forall|j: int| 0 <= j < i ==> z@[j] == x@[j],
                decreases n - i,
            {
                if z[i] != x[i] {
                    return false;
                }
                i = i + 1;
            }
            assert(z@ =~= x@);
            true
        };
    let y: Vec<i32> = vec![1, 2, 3];
    let same = equal_to_x(y);
    assert(same);
}

/// A shoe of some size and style.
#[derive(Debug, PartialEq)]
pub struct Shoe {
    pub size: u32,
    pub style: String,
}

/// Whether a shoe has size `shoe_size`.
pub open spec fn in_size(shoe_size: u32) -> spec_fn(Shoe) -> bool {
    |s: Shoe| s.size == shoe_size
}

/// The shoes of `shoes` whose size is `shoe_size`, in their order.
pub fn shoes_in_my_size(shoes: Vec<Shoe>, shoe_size: u32) -> (r: Vec<Shoe>)
    ensures
        r@ == shoes@.filter(in_size(shoe_size)),
{
    let ghost all = shoes@;
    let total = shoes.len();  // bounds the length for the loop's counter
    let ghost pred = in_size(shoe_size);
    let mut rest = shoes;
    let mut kept: Vec<Shoe> = Vec::new();
    let mut i: usize = 0;
    while rest.len() > 0
        invariant
            i <= all.len() <= usize::MAX,
            pred == in_size(shoe_size),
            rest@ == all.subrange(i as int, all.len() as int),
            kept@ == all.subrange(0, i as int).filter(pred),
        decreases rest@.len(),
    {
        let shoe = rest.remove(0);
        proof {
            reveal(Seq::filter);
            let next = all.subrange(0, i as int + 1);
            assert(next.drop_last() =~= all.subrange(0, i as int));
            assert(next.last() == shoe);
            assert(next.filter(pred) == if pred(shoe) {
                kept@.push(shoe)
            } else {
                kept@
            });
            assert(all.subrange(i as int + 1, all.len() as int) =~= all.subrange(
                i as int,
                all.len() as int,
            ).drop_first());
        }
        if shoe.size == shoe_size {
            kept.push(shoe);
        }
        i = i + 1;
    }
    proof {
        reveal(Seq::filter);
        assert(all.subrange(0, i as int) =~= all);
    }
    kept
}

/// Counts from 1 to 5, one number per call to `next`.
pub struct Counter {
    count: u32,
}

impl Counter {
    /// The last number handed out, 0 before the first.
    pub closed spec fn spec_count(&self) -> u32 {
        self.count
    }

    /// A counter that has handed out nothing yet.
    pub fn new() -> (r: Counter)
        ensures
            r.spec_count() == 0,
    {
        Counter { count: 0 }
    }

    /// The next number, or `None` once 5 has been handed out.
    pub fn next(&mut self) -> (r: Option<u32>)
        ensures
            old(self).spec_count() < 5 ==> r == Some((old(self).spec_count() + 1) as u32)
                && final(self).spec_count() == old(self).spec_count() + 1,
            old(self).spec_count() >= 5 ==> r is None && final(self).spec_count() == old(
                self,
            ).spec_count(),
    {
        if self.count < 5 {
            self.count = self.count + 1;
            Some(self.count)
        } else {
            None
        }
    }
}

/// Linear prediction over audio samples, kept as a sketch only: nothing
/// is decoded.
pub fn audio_decoder() {
}

} // verus!
