//! Window classification from protocol metadata: window-type membership and
//! class-name matching.
use vstd::prelude::*;
use vstd::string::*;

verus! {

/// The primary window type read from a window is one of `candidates`; a
/// type that could not be read belongs to no set.
pub open spec fn type_in(type_prop: Option<u32>, candidates: Seq<u32>) -> bool {
    match type_prop {
        Some(t) => candidates.contains(t),
        None => false,
    }
}

/// No NUL separator lies in `s[a..b]`.
pub open spec fn no_nul(s: Seq<char>, a: int, b: int) -> bool {
    forall|k: int| a <= k < b ==> s[k] != '\0'
}

/// `s[a..b]` is one of the NUL-separated components of `s`.
pub open spec fn is_component(s: Seq<char>, a: int, b: int) -> bool {
    &&& 0 <= a <= b <= s.len()
    &&& (a == 0 || s[a - 1] == '\0')
    &&& (b == s.len() || s[b] == '\0')
    &&& no_nul(s, a, b)
}

/// Some entry of `names` equals `c`.
pub open spec fn names_contain(names: Seq<Seq<char>>, c: Seq<char>) -> bool {
    exists|k: int| 0 <= k < names.len() && names[k] == c
}

/// Some NUL-separated component of the class-name property `s` is one of
/// `names`.
pub open spec fn class_matches(s: Seq<char>, names: Seq<Seq<char>>) -> bool {
    exists|a: int, b: int| is_component(s, a, b) && #[trigger] names_contain(names, s.subrange(a, b))
}

/// A window floats when some component of its class-name property is one
/// of `names`, or else when its primary window type is one of `float_types`.
/// A property that could not be read (`None`) matches nothing.
pub open spec fn floats(class_prop: Option<Seq<char>>, type_prop: Option<u32>, names: Seq<Seq<char>>, float_types: Seq<u32>) -> bool {
    let by_class = match class_prop {
        Some(c) => class_matches(c, names),
        None => false,
    };
    by_class || type_in(type_prop, float_types)
}

/// The view of a text that may be missing.
pub open spec fn opt_text(t: Option<String>) -> Option<Seq<char>> {
    match t {
        Some(s) => Some(s@),
        None => None,
    }
}

/// The views of a sequence of strings.
pub open spec fn names_of(v: Seq<String>) -> Seq<Seq<char>> {
    v.map_values(|c: String| c@)
}

/// The primary window type `type_prop`, as read from a window, is in
/// `candidates`. A failed read (`None`) is in no set.
pub fn has_type_in(type_prop: Option<u32>, candidates: &Vec<u32>) -> (r: bool)
    ensures
        r == type_in(type_prop, candidates@),
{
    if type_prop.is_none() {
        return false;
    }
    let t = type_prop.unwrap();
    let mut i: usize = 0;
    while i < candidates.len()
        invariant
            type_prop == Some(t),
            i <= candidates@.len(),
            forall|j: int| 0 <= j < i ==> candidates@[j] != t,
        decreases candidates@.len() - i,
    {
        if candidates[i] == t {
            assert(candidates@[i as int] == t);
            return true;
        }
        i = i + 1;
    }
    false
}

/// Whether `c` is one of `names`.
fn name_listed(names: &Vec<String>, c: &String) -> (r: bool)
    ensures
        r == names_contain(names_of(names@), c@),
{
    let mut k: usize = 0;
    while k < names.len()
        invariant
            k <= names@.len(),
            forall|j: int| 0 <= j < k ==> names@[j]@ != c@,
        decreases names@.len() - k,
    {
        if names[k] == *c {
            assert(names_of(names@)[k as int] == c@);
            return true;
        }
        k = k + 1;
    }
    false
}

/// A component ending at `b` begins right after the last separator before
/// `b`.
proof fn lemma_component_start(s: Seq<char>, start: int, a: int, b: int)
    requires
        0 <= start <= b,
        start == 0 || s[start - 1] == '\0',
        no_nul(s, start, b),
        is_component(s, a, b),
    ensures
        a == start,
{
    if a < start {
        assert(s[start - 1] != '\0');
    }
    if a > start {
        assert(s[a - 1] != '\0');
    }
}

/// Some NUL-separated component of the class-name property `class_prop` is
/// one of `names`.
pub fn class_in(class_prop: &str, names: &Vec<String>) -> (r: bool)
    ensures
        r == class_matches(class_prop@, names_of(names@)),
{
    let ghost s = class_prop@;
    let ghost ns = names_of(names@);
    let n = class_prop.unicode_len();
    let mut start: usize = 0;
    let mut i: usize = 0;
    while i < n
        invariant
            s == class_prop@,
            ns == names_of(names@),
            n == s.len(),
            start <= i <= n,
            start == 0 || s[start - 1] == '\0',
            no_nul(s, start as int, i as int),
            forall|a: int, b: int| is_component(s, a, b) && b < i ==> !#[trigger] names_contain(ns, s.subrange(a, b)),
        decreases n - i,
    {
        if class_prop.get_char(i) == '\0' {
            let seg = String::from_str(class_prop.substring_char(start, i));
            if name_listed(names, &seg) {
                assert(is_component(s, start as int, i as int));
                return true;
            }
            proof {
                assert forall|a: int, b: int| is_component(s, a, b) && b < i + 1 implies !#[trigger] names_contain(ns, s.subrange(a, b)) by {
                    if b == i {
                        lemma_component_start(s, start as int, a, b);
                    }
                }
            }
            start = i + 1;
        } else {
            proof {
                assert forall|a: int, b: int| is_component(s, a, b) && b < i + 1 implies !#[trigger] names_contain(ns, s.subrange(a, b)) by {
                    if b == i {
                        assert(s[b] != '\0');
                    }
                }
            }
        }
        i = i + 1;
    }
    let seg = String::from_str(class_prop.substring_char(start, n));
    let found = name_listed(names, &seg);
    proof {
        if found {
            assert(is_component(s, start as int, n as int));
        } else {
            assert forall|a: int, b: int| is_component(s, a, b) implies !#[trigger] names_contain(ns, s.subrange(a, b)) by {
                if b == n {
                    lemma_component_start(s, start as int, a, b);
                }
            }
        }
    }
    found
}

} // verus!
