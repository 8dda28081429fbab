//! Names for newly produced agents, unique among the live ones.
use vstd::prelude::*;
use rand::rngs::SmallRng;
use rand::seq::SliceRandom;
use rand_core::SeedableRng;
use crate::store::{contains_name, names_view};

verus! {

pub open spec fn digit_char(d: nat) -> char {
    if d == 0 { '0' }
    else if d == 1 { '1' }
    else if d == 2 { '2' }
    else if d == 3 { '3' }
    else if d == 4 { '4' }
    else if d == 5 { '5' }
    else if d == 6 { '6' }
    else if d == 7 { '7' }
    else if d == 8 { '8' }
    else { '9' }
}

/// Decimal digits of `n`, most significant first, without leading zeros.
pub open spec fn decimal(n: nat) -> Seq<char>
    decreases n,
{
    if n < 10 {
        seq![digit_char(n)]
    } else {
        decimal(n / 10).push(digit_char(n % 10))
    }
}

/// The name used when the pool has no free name left: `Creep_` and the tick.
pub open spec fn tick_name(tick: nat) -> Seq<char> {
    seq!['C', 'r', 'e', 'e', 'p', '_'] + decimal(tick)
}

/// Length of the longest name in `s`.
pub open spec fn max_len(s: Seq<Seq<char>>) -> nat
    decreases s.len(),
{
    if s.len() == 0 {
        0
    } else {
        let rest = max_len(s.drop_last());
        if s.last().len() > rest { s.last().len() } else { rest }
    }
}

proof fn lemma_max_len(s: Seq<Seq<char>>, q: Seq<char>)
    requires
        s.contains(q),
    ensures
        q.len() <= max_len(s),
    decreases s.len(),
{
    if s.last() != q {
        let c = choose|c: int| 0 <= c < s.len() && s[c] == q;
        assert(s.drop_last()[c] == q);
        lemma_max_len(s.drop_last(), q);
    }
}

fn digit_str(d: u32) -> (r: &'static str)
    requires
        d < 10,
    ensures
        r@ == seq![digit_char(d as nat)],
{
    if d == 0 {
        proof { reveal_strlit("0"); }
        "0"
    } else if d == 1 {
        proof { reveal_strlit("1"); }
        "1"
    } else if d == 2 {
        proof { reveal_strlit("2"); }
        "2"
    } else if d == 3 {
        proof { reveal_strlit("3"); }
        "3"
    } else if d == 4 {
        proof { reveal_strlit("4"); }
        "4"
    } else if d == 5 {
        proof { reveal_strlit("5"); }
        "5"
    } else if d == 6 {
        proof { reveal_strlit("6"); }
        "6"
    } else if d == 7 {
        proof { reveal_strlit("7"); }
        "7"
    } else if d == 8 {
        proof { reveal_strlit("8"); }
        "8"
    } else {
        proof { reveal_strlit("9"); }
        "9"
    }
}

/// `n` written in decimal.
pub fn decimal_string(n: u32) -> (r: String)
    ensures
        r@ == decimal(n as nat),
    decreases n,
{
    if n < 10 {
        String::from_str(digit_str(n))
    } else {
        let mut s = decimal_string(n / 10);
        s.append(digit_str(n % 10));
        s
    }
}

/// Relies on `SeedableRng::seed_from_u64` (rand_core) for rand's `SmallRng`,
/// and on rand's `SliceRandom::choose`, which returns one element of the
/// slice, or `None` exactly when the slice is empty. Which element comes out
/// is left open: the generator's output is not portable across platforms.
#[verifier::external_body]
fn choose_name(seed: u64, pool: &Vec<String>) -> (r: Option<String>)
    ensures
        r.is_none() <==> pool@.len() == 0,
        r matches Some(s) ==> pool@.contains(s),
{
    let mut rng = SmallRng::seed_from_u64(seed);
    pool.choose(&mut rng).cloned()
}

/// A name for a new agent that no live agent bears: a free name of `pool`
/// picked with `tick` as seed, else `Creep_<tick>`, lengthened with `_`
/// while a live agent already bears it.
pub fn get_name(pool: &Vec<String>, live: &Vec<String>, tick: u32) -> (r: String)
    ensures
        !names_view(live@).contains(r@),
        (exists|i: int| 0 <= i < pool@.len() && !names_view(live@).contains(#[trigger] pool@[i]@))
            ==> exists|i: int| 0 <= i < pool@.len() && pool@[i]@ == r@,
        (forall|i: int| 0 <= i < pool@.len() ==> names_view(live@).contains(#[trigger] pool@[i]@))
            ==> tick_name(tick as nat).is_prefix_of(r@),
{
    let mut free: Vec<String> = Vec::new();
    let mut i: usize = 0;
    while i < pool.len()
        invariant
            i <= pool@.len(),
            forall|j: int| 0 <= j < free@.len() ==> !names_view(live@).contains(#[trigger] free@[j]@),
            forall|j: int| 0 <= j < free@.len() ==> exists|k: int| 0 <= k < pool@.len() && pool@[k]
                == #[trigger] free@[j],
            (exists|k: int| 0 <= k < i && !names_view(live@).contains(#[trigger] pool@[k]@))
                ==> free@.len() > 0,
        decreases pool@.len() - i,
    {
        if !contains_name(live, &pool[i]) {
            free.push(pool[i].clone());
            assert(free@[free@.len() - 1] == pool@[i as int]);
        }
        i += 1;
    }
    match choose_name(tick as u64, &free) {
        Some(name) => {
            proof {
                assert(free@.len() > 0);
                let j = choose|j: int| 0 <= j < free@.len() && free@[j] == name;
                assert(!names_view(live@).contains(free@[j]@));
            }
            name
        },
        None => {
            let mut name = String::from_str("Creep_");
            proof { reveal_strlit("Creep_"); }
            let digits = decimal_string(tick);
            name.append(digits.as_str());
            assert(name@ == tick_name(tick as nat));
            while contains_name(live, &name)
                invariant
                    tick_name(tick as nat).is_prefix_of(name@),
                decreases max_len(names_view(live@)) + 1 - name@.len(),
            {
                proof { lemma_max_len(names_view(live@), name@); }
                name.append("_");
                proof { reveal_strlit("_"); }
            }
            name
        },
    }
}

} // verus!
