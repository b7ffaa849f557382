//! The wire shape of protocol messages.
//!
//! Each message travels as an object with a string discriminator under
//! the key `type`; all other keys are variant-specific payload fields.
//! Lookups take the first entry under a key and ignore every unknown
//! key, as the protocol requires.

use vstd::prelude::*;

verus! {

/// A structured wire value: what one protocol message parses into
/// before it is understood as an event.
#[derive(Debug, PartialEq, Eq)]
pub enum WireValue {
    Null,
    Bool(bool),
    UInt(u64),
    Str(String),
    Arr(Vec<WireValue>),
    Obj(Vec<(String, WireValue)>),
}

/// A malformed or unrecognized wire message: the raw discriminator
/// and the structural mismatch, for the caller to log or act on.
#[derive(Clone, Debug, PartialEq, Eq)]
pub struct ProtocolDecodeError {
    pub tag: String,
    pub detail: String,
}

/// The first value stored under key `k`, front to back; later entries
/// under the same key and unknown keys are ignored.
pub open spec fn spec_obj_get(s: Seq<(String, WireValue)>, k: Seq<char>) -> Option<WireValue>
    decreases s.len(),
{
    if s.len() == 0 {
        None
    } else if s[0].0@ == k {
        Some(s[0].1)
    } else {
        spec_obj_get(s.drop_first(), k)
    }
}

/// Evaluates a lookup over an object of exactly one entry.
pub proof fn lemma_obj_get1(s: Seq<(String, WireValue)>, k: Seq<char>)
    requires
        s.len() == 1,
    ensures
        spec_obj_get(s, k) == (if s[0].0@ == k {
            Some(s[0].1)
        } else {
            None
        }),
{
    reveal_with_fuel(spec_obj_get, 3);
    assert(s.drop_first().len() == 0);
}

/// Evaluates a lookup over an object of exactly two entries.
pub proof fn lemma_obj_get2(s: Seq<(String, WireValue)>, k: Seq<char>)
    requires
        s.len() == 2,
    ensures
        spec_obj_get(s, k) == (if s[0].0@ == k {
            Some(s[0].1)
        } else if s[1].0@ == k {
            Some(s[1].1)
        } else {
            None
        }),
{
    lemma_obj_get1(s.drop_first(), k);
    assert(s.drop_first()[0] == s[1]);
}

/// Evaluates a lookup over an object of exactly three entries.
pub proof fn lemma_obj_get3(s: Seq<(String, WireValue)>, k: Seq<char>)
    requires
        s.len() == 3,
    ensures
        spec_obj_get(s, k) == (if s[0].0@ == k {
            Some(s[0].1)
        } else if s[1].0@ == k {
            Some(s[1].1)
        } else if s[2].0@ == k {
            Some(s[2].1)
        } else {
            None
        }),
{
    lemma_obj_get2(s.drop_first(), k);
    assert(s.drop_first()[0] == s[1]);
    assert(s.drop_first()[1] == s[2]);
}

/// Evaluates a lookup over an object of exactly four entries.
pub proof fn lemma_obj_get4(s: Seq<(String, WireValue)>, k: Seq<char>)
    requires
        s.len() == 4,
    ensures
        spec_obj_get(s, k) == (if s[0].0@ == k {
            Some(s[0].1)
        } else if s[1].0@ == k {
            Some(s[1].1)
        } else if s[2].0@ == k {
            Some(s[2].1)
        } else if s[3].0@ == k {
            Some(s[3].1)
        } else {
            None
        }),
{
    lemma_obj_get3(s.drop_first(), k);
    assert(s.drop_first()[0] == s[1]);
    assert(s.drop_first()[1] == s[2]);
    assert(s.drop_first()[2] == s[3]);
}

/// Evaluates a lookup over an object of exactly five entries.
pub proof fn lemma_obj_get5(s: Seq<(String, WireValue)>, k: Seq<char>)
    requires
        s.len() == 5,
    ensures
        spec_obj_get(s, k) == (if s[0].0@ == k {
            Some(s[0].1)
        } else if s[1].0@ == k {
            Some(s[1].1)
        } else if s[2].0@ == k {
            Some(s[2].1)
        } else if s[3].0@ == k {
            Some(s[3].1)
        } else if s[4].0@ == k {
            Some(s[4].1)
        } else {
            None
        }),
{
    lemma_obj_get4(s.drop_first(), k);
    assert(s.drop_first()[0] == s[1]);
    assert(s.drop_first()[1] == s[2]);
    assert(s.drop_first()[2] == s[3]);
    assert(s.drop_first()[3] == s[4]);
}

/// The string under `k`, if `k` holds a string.
pub open spec fn spec_get_str(s: Seq<(String, WireValue)>, k: Seq<char>) -> Option<String> {
    match spec_obj_get(s, k) {
        Some(WireValue::Str(t)) => Some(t),
        _ => None,
    }
}

/// The integer under `k`, if `k` holds an integer.
pub open spec fn spec_get_u64(s: Seq<(String, WireValue)>, k: Seq<char>) -> Option<u64> {
    match spec_obj_get(s, k) {
        Some(WireValue::UInt(x)) => Some(x),
        _ => None,
    }
}

/// The integer under `k` narrowed to 32 bits, if it fits.
pub open spec fn spec_get_u32(s: Seq<(String, WireValue)>, k: Seq<char>) -> Option<u32> {
    match spec_obj_get(s, k) {
        Some(WireValue::UInt(x)) => if x <= u32::MAX as u64 {
            Some(x as u32)
        } else {
            None
        },
        _ => None,
    }
}

/// The integer under `k` narrowed to 8 bits, if it fits.
pub open spec fn spec_get_u8(s: Seq<(String, WireValue)>, k: Seq<char>) -> Option<u8> {
    match spec_obj_get(s, k) {
        Some(WireValue::UInt(x)) => if x <= u8::MAX as u64 {
            Some(x as u8)
        } else {
            None
        },
        _ => None,
    }
}

/// The entries of the object under `k`, if `k` holds an object.
pub open spec fn spec_get_obj(s: Seq<(String, WireValue)>, k: Seq<char>) -> Option<
    Seq<(String, WireValue)>,
> {
    match spec_obj_get(s, k) {
        Some(WireValue::Obj(o)) => Some(o@),
        _ => None,
    }
}

/// The elements of the array under `k`, if `k` holds an array.
pub open spec fn spec_get_arr(s: Seq<(String, WireValue)>, k: Seq<char>) -> Option<Seq<WireValue>> {
    match spec_obj_get(s, k) {
        Some(WireValue::Arr(a)) => Some(a@),
        _ => None,
    }
}

/// An optional string field: an absent key or an explicit null reads
/// as absent, a string as present, anything else as a mismatch.
pub open spec fn spec_opt_str(s: Seq<(String, WireValue)>, k: Seq<char>) -> Option<Option<String>> {
    match spec_obj_get(s, k) {
        None => Some(None),
        Some(WireValue::Null) => Some(None),
        Some(WireValue::Str(t)) => Some(Some(t)),
        _ => None,
    }
}

/// An optional integer field, read like `spec_opt_str`.
pub open spec fn spec_opt_u64(s: Seq<(String, WireValue)>, k: Seq<char>) -> Option<Option<u64>> {
    match spec_obj_get(s, k) {
        None => Some(None),
        Some(WireValue::Null) => Some(None),
        Some(WireValue::UInt(x)) => Some(Some(x)),
        _ => None,
    }
}

/// First entry under `k`, as `spec_obj_get` describes it.
pub fn obj_get<'a>(o: &'a Vec<(String, WireValue)>, k: &String) -> (r: Option<&'a WireValue>)
    ensures
        match r {
            Some(w) => spec_obj_get(o@, k@) == Some(*w),
            None => spec_obj_get(o@, k@) is None,
        },
{
    let n = o.len();
    let mut i: usize = 0;
    while i < n
        invariant
            n == o.len(),
            0 <= i <= n,
            forall|j: int| 0 <= j < i ==> o@[j].0@ != k@,
        decreases n - i,
    {
        if o[i].0 == *k {
            proof {
                lemma_obj_get_skip(o@, k@, i as int);
                assert(o@.skip(i as int)[0] == o@[i as int]);
            }
            return Some(&o[i].1);
        }
        i += 1;
    }
    proof {
        lemma_obj_get_skip(o@, k@, n as int);
        assert(o@.skip(n as int) =~= Seq::<(String, WireValue)>::empty());
    }
    None
}

/// `spec_obj_get` skips any prefix that misses the key.
proof fn lemma_obj_get_skip(s: Seq<(String, WireValue)>, k: Seq<char>, i: int)
    requires
        0 <= i <= s.len(),
        forall|j: int| 0 <= j < i ==> s[j].0@ != k,
    ensures
        spec_obj_get(s, k) == spec_obj_get(s.skip(i), k),
    decreases i,
{
    if i > 0 {
        lemma_obj_get_skip(s.drop_first(), k, i - 1);
        assert(s.drop_first().skip(i - 1) =~= s.skip(i));
    } else {
        assert(s.skip(0) =~= s);
    }
}

/// The string under `k`, as `spec_get_str` describes it.
pub fn get_str(o: &Vec<(String, WireValue)>, k: &String) -> (r: Option<String>)
    ensures
        r == spec_get_str(o@, k@),
{
    match obj_get(o, k) {
        Some(WireValue::Str(t)) => Some(t.clone()),
        _ => None,
    }
}

/// The integer under `k`, as `spec_get_u64` describes it.
pub fn get_u64(o: &Vec<(String, WireValue)>, k: &String) -> (r: Option<u64>)
    ensures
        r == spec_get_u64(o@, k@),
{
    match obj_get(o, k) {
        Some(WireValue::UInt(x)) => Some(*x),
        _ => None,
    }
}

/// The 32-bit integer under `k`, as `spec_get_u32` describes it.
pub fn get_u32(o: &Vec<(String, WireValue)>, k: &String) -> (r: Option<u32>)
    ensures
        r == spec_get_u32(o@, k@),
{
    match obj_get(o, k) {
        Some(WireValue::UInt(x)) => {
            if *x <= u32::MAX as u64 {
                Some(*x as u32)
            } else {
                None
            }
        },
        _ => None,
    }
}

/// The 8-bit integer under `k`, as `spec_get_u8` describes it.
pub fn get_u8(o: &Vec<(String, WireValue)>, k: &String) -> (r: Option<u8>)
    ensures
        r == spec_get_u8(o@, k@),
{
    match obj_get(o, k) {
        Some(WireValue::UInt(x)) => {
            if *x <= u8::MAX as u64 {
                Some(*x as u8)
            } else {
                None
            }
        },
        _ => None,
    }
}

/// The optional string under `k`, as `spec_opt_str` describes it.
pub fn opt_str(o: &Vec<(String, WireValue)>, k: &String) -> (r: Option<Option<String>>)
    ensures
        r == spec_opt_str(o@, k@),
{
    match obj_get(o, k) {
        None => Some(None),
        Some(WireValue::Null) => Some(None),
        Some(WireValue::Str(t)) => Some(Some(t.clone())),
        _ => None,
    }
}

/// The optional integer under `k`, as `spec_opt_u64` describes it.
pub fn opt_u64(o: &Vec<(String, WireValue)>, k: &String) -> (r: Option<Option<u64>>)
    ensures
        r == spec_opt_u64(o@, k@),
{
    match obj_get(o, k) {
        None => Some(None),
        Some(WireValue::Null) => Some(None),
        Some(WireValue::UInt(x)) => Some(Some(*x)),
        _ => None,
    }
}

/// An element of a homogeneous wire list: how one value of the type
/// reads from and renders to a single wire value.
pub trait WireItem: Sized {
    /// What a wire value reads as, if it is well-formed for this type.
    spec fn spec_dec(v: WireValue) -> Option<Self>;

    /// Executable read, exactly as `spec_dec` describes it.
    fn dec(v: &WireValue) -> (r: Option<Self>)
        ensures
            r == Self::spec_dec(*v),
    ;

    /// Rendering; reading it back yields the value itself.
    fn enc(&self) -> (r: WireValue)
        ensures
            Self::spec_dec(r) == Some(*self),
    ;
}

/// All elements read in order, or nothing if any element mismatches.
pub open spec fn spec_dec_list<T: WireItem>(s: Seq<WireValue>) -> Option<Seq<T>>
    decreases s.len(),
{
    if s.len() == 0 {
        Some(Seq::<T>::empty())
    } else {
        match spec_dec_list::<T>(s.drop_last()) {
            None => None,
            Some(init) => match T::spec_dec(s.last()) {
                None => None,
                Some(t) => Some(init.push(t)),
            },
        }
    }
}

/// A failed prefix never recovers: the whole list fails with it.
proof fn lemma_dec_list_none_mono<T: WireItem>(s: Seq<WireValue>, i: int)
    requires
        0 <= i <= s.len(),
        spec_dec_list::<T>(s.take(i)) is None,
    ensures
        spec_dec_list::<T>(s) is None,
    decreases s.len() - i,
{
    if i < s.len() {
        assert(s.take(i + 1).drop_last() =~= s.take(i));
        lemma_dec_list_none_mono::<T>(s, i + 1);
    } else {
        assert(s.take(i) =~= s);
    }
}

/// Reads a whole wire list, exactly as `spec_dec_list` describes it.
pub fn dec_list<T: WireItem>(items: &Vec<WireValue>) -> (r: Option<Vec<T>>)
    ensures
        match r {
            Some(ts) => spec_dec_list::<T>(items@) == Some(ts@),
            None => spec_dec_list::<T>(items@) is None,
        },
{
    let n = items.len();
    let mut acc: Vec<T> = Vec::new();
    let mut i: usize = 0;
    while i < n
        invariant
            n == items.len(),
            0 <= i <= n,
            spec_dec_list::<T>(items@.take(i as int)) == Some(acc@),
        decreases n - i,
    {
        proof {
            assert(items@.take(i as int + 1).drop_last() =~= items@.take(i as int));
            assert(items@.take(i as int + 1).last() == items@[i as int]);
        }
        match T::dec(&items[i]) {
            Some(t) => {
                acc.push(t);
            },
            None => {
                proof {
                    lemma_dec_list_none_mono::<T>(items@, i as int + 1);
                }
                return None;
            },
        }
        i += 1;
    }
    proof {
        assert(items@.take(n as int) =~= items@);
    }
    Some(acc)
}

/// Renders a whole list; reading it back yields the list's contents.
pub fn enc_list<T: WireItem>(items: &Vec<T>) -> (r: Vec<WireValue>)
    ensures
        spec_dec_list::<T>(r@) == Some(items@),
{
    let n = items.len();
    let mut acc: Vec<WireValue> = Vec::new();
    let mut i: usize = 0;
    while i < n
        invariant
            n == items.len(),
            0 <= i <= n,
            spec_dec_list::<T>(acc@) == Some(items@.take(i as int)),
        decreases n - i,
    {
        let w = items[i].enc();
        let ghost prev = acc@;
        acc.push(w);
        proof {
            assert(acc@.drop_last() =~= prev);
            assert(acc@.last() == w);
            assert(items@.take(i as int).push(items@[i as int]) =~= items@.take(i as int + 1));
        }
        i += 1;
    }
    proof {
        assert(items@.take(n as int) =~= items@);
    }
    acc
}

} // verus!
