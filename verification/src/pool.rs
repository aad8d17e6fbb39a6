use vstd::prelude::*;

verus! {

/// Relies on num_cpus::get_physical: the count of physical cores of the
/// machine the run happens on. Nothing is promised of the value.
#[verifier::external_body]
fn physical_cpu_count_raw() -> usize {
    num_cpus::get_physical()
}

/// The physical core count, floored at one so a pool can always be built.
pub fn physical_cpus() -> (n: usize)
    ensures
        n >= 1,
{
    let c: usize = physical_cpu_count_raw();
    if c == 0 {
        1
    } else {
        c
    }
}

/// The batches a work list is split into: the first `b` items, then the
/// batches of the rest; a final batch may be short.
pub open spec fn batches_of<T>(s: Seq<T>, b: int) -> Seq<Seq<T>>
    decreases s.len(),
{
    if b < 1 || s.len() == 0 {
        Seq::<Seq<T>>::empty()
    } else if s.len() <= b {
        seq![s]
    } else {
        seq![s.take(b)] + batches_of(s.skip(b), b)
    }
}

/// Partition the work list into fixed-size batches, each handed end to end
/// to one worker: every batch but possibly the last holds exactly `batch`
/// items, and the batches in order are exactly the work list.
pub fn partition_batches<T>(items: Vec<T>, batch: usize) -> (out: Vec<Vec<T>>)
    requires
        1 <= batch,
    ensures
        out@.map_values(|v: Vec<T>| v@) == batches_of(items@, batch as int),
{
    let ghost all = items@;
    let ghost b = batch as int;
    let mut rem = items;
    let mut out: Vec<Vec<T>> = Vec::new();
    proof {
        assert(out@.map_values(|v: Vec<T>| v@) + batches_of(rem@, b) =~~= batches_of(all, b));
    }
    while rem.len() > 0
        invariant
            1 <= b,
            b == batch as int,
            out@.map_values(|v: Vec<T>| v@) + batches_of(rem@, b) == batches_of(all, b),
        decreases rem@.len(),
    {
        let ghost rem_before = rem@;
        let ghost out_before = out@;
        let tail: Vec<T> = if batch < rem.len() {
            rem.split_off(batch)
        } else {
            Vec::new()
        };
        proof {
            if b < rem_before.len() {
                assert(rem@ =~= rem_before.take(b));
                assert(tail@ =~= rem_before.skip(b));
            } else {
                assert(tail@ =~= Seq::<T>::empty());
            }
        }
        out.push(rem);
        rem = tail;
        proof {
            assert(out@.map_values(|v: Vec<T>| v@) =~= out_before.map_values(|v: Vec<T>| v@).push(
                out@[out@.len() - 1]@,
            ));
            assert(out@.map_values(|v: Vec<T>| v@) + batches_of(rem@, b) =~~= out_before.map_values(
                |v: Vec<T>| v@,
            ) + batches_of(rem_before, b));
        }
    }
    proof {
        assert(batches_of(rem@, b) =~~= Seq::<Seq<T>>::empty());
        assert(out@.map_values(|v: Vec<T>| v@) =~~= batches_of(all, b));
    }
    out
}

/// The worker count the pool runs with: the override when one was given,
/// else one worker per physical core and never fewer than one.
pub fn worker_count(jobs: Option<usize>) -> (n: usize)
    ensures
        match jobs {
            Some(j) => n == j,
            None => n >= 1,
        },
{
    match jobs {
        Some(j) => j,
        None => physical_cpus(),
    }
}

} // verus!
