//! Type signatures: the readable notation, its grammar, and the notation of
//! the runtime.
//!
//! A readable signature is a primitive name (`int`), a dotted class name
//! (`java.lang.String`), either of them followed by `[]` once per array
//! dimension, or the shape of a method: `(int, long[]) -> void`. The runtime
//! wants the same in its own terse notation: `I`, `Ljava/lang/String;`, `[J`,
//! `(I[J)V`.
//!
//! [`parse`] is the grammar, as a function from the characters of a readable
//! signature to its tree; [`mangled`] and [`pretty`] render a tree in the
//! runtime's notation and in the readable one.

use vstd::prelude::*;
use vstd::string::StringExecFns;
use crate::error::{Error, ErrorView};
use crate::ffi::constants::JNI_ERR;
use crate::text::{chars_of, spells, string_of};
use crate::types::jtype::JType;

verus! {

broadcast use vstd::string::group_string_axioms;

/// A parsed signature.
#[derive(Debug)]
pub enum TypeSignature {
    /// A primitive type, by its name
    Primitive(String),
    /// A class, by its dotted name
    Class(String),
    /// An array of the given element type
    Array(Box<TypeSignature>),
    /// A method, by the types of its parameters and of its result
    Method(Vec<TypeSignature>, Box<TypeSignature>),
}

/// What a [`TypeSignature`] holds, as mathematical values.
pub enum SignatureView {
    Primitive(Seq<char>),
    Class(Seq<char>),
    Array(Box<SignatureView>),
    Method(Seq<SignatureView>, Box<SignatureView>),
}

impl TypeSignature {
    /// The tree that this signature holds.
    pub open spec fn model(&self) -> SignatureView
        decreases self,
    {
        match self {
            TypeSignature::Primitive(name) => SignatureView::Primitive(name@),
            TypeSignature::Class(name) => SignatureView::Class(name@),
            TypeSignature::Array(inner) => SignatureView::Array(Box::new(inner.model())),
            TypeSignature::Method(params, ret) => SignatureView::Method(
                Seq::new(
                    params@.len(),
                    |i: int|
                        if 0 <= i < params@.len() {
                            params@[i].model()
                        } else {
                            SignatureView::Class(Seq::empty())
                        },
                ),
                Box::new(ret.model()),
            ),
        }
    }
}

impl View for TypeSignature {
    type V = SignatureView;

    open spec fn view(&self) -> SignatureView {
        self.model()
    }
}

/// The trees of a sequence of signatures.
pub open spec fn models(sigs: Seq<TypeSignature>) -> Seq<SignatureView> {
    Seq::new(sigs.len(), |i: int| sigs[i]@)
}

/// Whether `c` is white space: a character with the Unicode property
/// White_Space.
pub open spec fn is_space(c: char) -> bool {
    let n = c as u32;
    ||| 0x09 <= n <= 0x0D
    ||| n == 0x20
    ||| n == 0x85
    ||| n == 0xA0
    ||| n == 0x1680
    ||| 0x2000 <= n <= 0x200A
    ||| n == 0x2028
    ||| n == 0x2029
    ||| n == 0x202F
    ||| n == 0x205F
    ||| n == 0x3000
}

/// `s` without the white space at its start.
pub open spec fn skip_space(s: Seq<char>) -> Seq<char>
    decreases s.len(),
{
    if s.len() > 0 && is_space(s[0]) {
        skip_space(s.drop_first())
    } else {
        s
    }
}

/// `s` without the white space at its end.
pub open spec fn drop_space(s: Seq<char>) -> Seq<char>
    decreases s.len(),
{
    if s.len() > 0 && is_space(s.last()) {
        drop_space(s.drop_last())
    } else {
        s
    }
}

/// `s` without the white space at its start and at its end.
pub open spec fn trim(s: Seq<char>) -> Seq<char> {
    drop_space(skip_space(s))
}

/// Whether `s` is the name of a primitive type.
pub open spec fn is_primitive(s: Seq<char>) -> bool {
    ||| s == "boolean"@
    ||| s == "byte"@
    ||| s == "char"@
    ||| s == "short"@
    ||| s == "int"@
    ||| s == "long"@
    ||| s == "float"@
    ||| s == "double"@
    ||| s == "void"@
}

/// The letter by which the runtime names a primitive type; nothing for any
/// other name.
pub open spec fn primitive_symbol(s: Seq<char>) -> Seq<char> {
    if s == "boolean"@ {
        seq!['Z']
    } else if s == "byte"@ {
        seq!['B']
    } else if s == "char"@ {
        seq!['C']
    } else if s == "short"@ {
        seq!['S']
    } else if s == "int"@ {
        seq!['I']
    } else if s == "long"@ {
        seq!['J']
    } else if s == "float"@ {
        seq!['F']
    } else if s == "double"@ {
        seq!['D']
    } else if s == "void"@ {
        seq!['V']
    } else {
        Seq::empty()
    }
}

/// Whether the arrow `->` stands at position `i` of `s`.
pub open spec fn arrow_at(s: Seq<char>, i: int) -> bool {
    0 <= i && i + 1 < s.len() && s[i] == '-' && s[i + 1] == '>'
}

/// The position of the first arrow in `s` at or after `i`.
pub open spec fn arrow_from(s: Seq<char>, i: int) -> Option<int>
    decreases s.len() - i,
{
    if i < 0 || i + 1 >= s.len() {
        None
    } else if arrow_at(s, i) {
        Some(i)
    } else {
        arrow_from(s, i + 1)
    }
}

/// The position of the first arrow in `s`.
pub open spec fn first_arrow(s: Seq<char>) -> Option<int> {
    arrow_from(s, 0)
}

/// The position of the first comma in `s` at or after `i`.
pub open spec fn comma_from(s: Seq<char>, i: int) -> Option<int>
    decreases s.len() - i,
{
    if i < 0 || i >= s.len() {
        None
    } else if s[i] == ',' {
        Some(i)
    } else {
        comma_from(s, i + 1)
    }
}

/// The position of the first comma in `s`.
pub open spec fn first_comma(s: Seq<char>) -> Option<int> {
    comma_from(s, 0)
}

/// Whether `s` ends in `[]`.
pub open spec fn is_array_shape(s: Seq<char>) -> bool {
    s.len() >= 2 && s[s.len() - 2] == '[' && s[s.len() - 1] == ']'
}

/// Whether `s` starts with an opening parenthesis.
pub open spec fn is_method_shape(s: Seq<char>) -> bool {
    s.len() >= 1 && s[0] == '('
}

/// The grammar of readable signatures: the tree that `s` stands for, or
/// nothing where `s` is malformed.
///
/// White space around `s` does not count. A primitive name is a primitive. What
/// starts with `(` is a method: it must hold an arrow, and what stands before
/// the first arrow must end in `)`; between the parentheses stand the
/// parameters, separated by commas, none if there is nothing between them; behind
/// the arrow stands the result. What ends in `[]` is an array of what stands
/// before. Everything else is the name of a class.
pub open spec fn parse(s: Seq<char>) -> Option<SignatureView>
    decreases s.len(), 0nat,
{
    let t = trim(s);
    if is_primitive(t) {
        Some(SignatureView::Primitive(t))
    } else if is_method_shape(t) {
        match first_arrow(t) {
            None => None,
            Some(pos) => {
                let args = trim(t.subrange(0, pos));
                let ret = t.subrange(pos + 2, t.len() as int);
                if args.len() < 2 || args.last() != ')' {
                    None
                } else {
                    let inner = args.subrange(1, args.len() - 1);
                    proof {
                        lemma_trim_len(s);
                        lemma_arrow_bounds(t, 0);
                        lemma_trim_len(t.subrange(0, pos));
                    }
                    match (parse_args(inner), parse(ret)) {
                        (Some(params), Some(r)) => Some(SignatureView::Method(params, Box::new(r))),
                        _ => None,
                    }
                }
            },
        }
    } else if is_array_shape(t) {
        proof {
            lemma_trim_len(s);
        }
        match parse(t.subrange(0, t.len() - 2)) {
            Some(inner) => Some(SignatureView::Array(Box::new(inner))),
            None => None,
        }
    } else {
        Some(SignatureView::Class(t))
    }
}

/// The parameters that stand between the parentheses of a method: none where
/// nothing stands there, else the signatures between the commas.
pub open spec fn parse_args(s: Seq<char>) -> Option<Seq<SignatureView>>
    decreases s.len(), 2nat,
{
    if s.len() == 0 {
        Some(Seq::empty())
    } else {
        parse_list(s)
    }
}

/// The signatures that stand in `s` between commas. Every comma separates, so
/// that `s` holds one signature more than commas.
pub open spec fn parse_list(s: Seq<char>) -> Option<Seq<SignatureView>>
    decreases s.len(), 1nat,
{
    match first_comma(s) {
        None => match parse(s) {
            Some(p) => Some(seq![p]),
            None => None,
        },
        Some(i) => {
            proof {
                lemma_comma_bounds(s, 0);
            }
            match (parse(s.subrange(0, i)), parse_list(s.subrange(i + 1, s.len() as int))) {
                (Some(p), Some(rest)) => Some(seq![p] + rest),
                _ => None,
            }
        },
    }
}

/// White space is only taken away.
pub proof fn lemma_trim_len(s: Seq<char>)
    ensures
        skip_space(s).len() <= s.len(),
        drop_space(s).len() <= s.len(),
        trim(s).len() <= s.len(),
    decreases s.len(),
{
    if s.len() > 0 {
        lemma_trim_len(s.drop_first());
        lemma_trim_len(s.drop_last());
    }
    lemma_drop_len(skip_space(s));
}

proof fn lemma_drop_len(s: Seq<char>)
    ensures
        drop_space(s).len() <= s.len(),
    decreases s.len(),
{
    if s.len() > 0 {
        lemma_drop_len(s.drop_last());
    }
}

/// An arrow that was found lies inside the text, at or after the place where
/// the search began, and no arrow lies between the two.
pub proof fn lemma_arrow_bounds(s: Seq<char>, i: int)
    requires
        0 <= i,
    ensures
        match arrow_from(s, i) {
            Some(pos) => i <= pos && arrow_at(s, pos) && forall|j: int|
                i <= j < pos ==> !arrow_at(s, j),
            None => forall|j: int| i <= j ==> !arrow_at(s, j),
        },
    decreases s.len() - i,
{
    if i + 1 < s.len() && !arrow_at(s, i) {
        lemma_arrow_bounds(s, i + 1);
    }
}

/// A comma that was found lies inside the text, at or after the place where
/// the search began, and no comma lies between the two.
pub proof fn lemma_comma_bounds(s: Seq<char>, i: int)
    requires
        0 <= i,
    ensures
        match comma_from(s, i) {
            Some(pos) => i <= pos < s.len() && s[pos] == ',' && forall|j: int|
                i <= j < pos ==> s[j] != ',',
            None => forall|j: int| i <= j < s.len() ==> s[j] != ',',
        },
    decreases s.len() - i,
{
    if i < s.len() && s[i] != ',' {
        lemma_comma_bounds(s, i + 1);
    }
}

/// Whether `c` is white space.
pub fn is_space_char(c: char) -> (r: bool)
    ensures
        r == is_space(c),
{
    let n: u32 = c as u32;
    (0x09 <= n && n <= 0x0D) || n == 0x20 || n == 0x85 || n == 0xA0 || n == 0x1680 || (0x2000 <= n
        && n <= 0x200A) || n == 0x2028 || n == 0x2029 || n == 0x202F || n == 0x205F || n == 0x3000
}

/// The bounds of `v[lo..hi]` without the white space at its start and end.
fn trim_range(v: &Vec<char>, lo: usize, hi: usize) -> (r: (usize, usize))
    requires
        lo <= hi <= v.len(),
    ensures
        lo <= r.0 <= r.1 <= hi,
        v@.subrange(r.0 as int, r.1 as int) == trim(v@.subrange(lo as int, hi as int)),
{
    let mut a: usize = lo;
    while a < hi && is_space_char(v[a])
        invariant
            lo <= a <= hi <= v.len(),
            skip_space(v@.subrange(a as int, hi as int)) == skip_space(
                v@.subrange(lo as int, hi as int),
            ),
        decreases hi - a,
    {
        assert(v@.subrange(a as int, hi as int).drop_first() == v@.subrange(a + 1, hi as int));
        a += 1;
    }
    let mut b: usize = hi;
    while a < b && is_space_char(v[b - 1])
        invariant
            a <= b <= hi <= v.len(),
            drop_space(v@.subrange(a as int, b as int)) == drop_space(
                v@.subrange(a as int, hi as int),
            ),
        decreases b - a,
    {
        assert(v@.subrange(a as int, b as int).drop_last() == v@.subrange(a as int, b - 1));
        b -= 1;
    }
    (a, b)
}

/// The position of the first arrow in `v[lo..hi]`, counted from `lo`.
fn find_arrow(v: &Vec<char>, lo: usize, hi: usize) -> (r: Option<usize>)
    requires
        lo <= hi <= v.len(),
    ensures
        match r {
            Some(pos) => first_arrow(v@.subrange(lo as int, hi as int)) == Some(pos as int) && pos
                + 2 <= hi - lo,
            None => first_arrow(v@.subrange(lo as int, hi as int)) is None,
        },
{
    let ghost s = v@.subrange(lo as int, hi as int);
    let mut i: usize = lo;
    while hi - i > 1
        invariant
            lo <= i <= hi <= v.len(),
            s == v@.subrange(lo as int, hi as int),
            arrow_from(s, i - lo) == first_arrow(s),
        decreases hi - i,
    {
        if v[i] == '-' && v[i + 1] == '>' {
            assert(arrow_at(s, i - lo));
            return Some(i - lo);
        }
        assert(!arrow_at(s, i - lo));
        i += 1;
    }
    None
}

/// The position of the first comma in `v[lo..hi]`, counted from `lo`.
fn find_comma(v: &Vec<char>, lo: usize, hi: usize) -> (r: Option<usize>)
    requires
        lo <= hi <= v.len(),
    ensures
        match r {
            Some(pos) => first_comma(v@.subrange(lo as int, hi as int)) == Some(pos as int) && pos
                < hi - lo,
            None => first_comma(v@.subrange(lo as int, hi as int)) is None,
        },
{
    let ghost s = v@.subrange(lo as int, hi as int);
    let mut i: usize = lo;
    while i < hi
        invariant
            lo <= i <= hi <= v.len(),
            s == v@.subrange(lo as int, hi as int),
            comma_from(s, i - lo) == first_comma(s),
        decreases hi - i,
    {
        if v[i] == ',' {
            return Some(i - lo);
        }
        i += 1;
    }
    None
}

/// Whether `v[lo..hi]` is the name of a primitive type.
fn is_primitive_range(v: &Vec<char>, lo: usize, hi: usize) -> (r: bool)
    requires
        lo <= hi <= v.len(),
    ensures
        r == is_primitive(v@.subrange(lo as int, hi as int)),
{
    spells(v, lo, hi, "boolean") || spells(v, lo, hi, "byte") || spells(v, lo, hi, "char")
        || spells(v, lo, hi, "short") || spells(v, lo, hi, "int") || spells(v, lo, hi, "long")
        || spells(v, lo, hi, "float") || spells(v, lo, hi, "double") || spells(v, lo, hi, "void")
}

/// The signature that `v[lo..hi]` stands for, if it stands for one.
fn parse_range(v: &Vec<char>, lo: usize, hi: usize) -> (r: Option<TypeSignature>)
    requires
        lo <= hi <= v.len(),
    ensures
        match r {
            Some(sig) => parse(v@.subrange(lo as int, hi as int)) == Some(sig@),
            None => parse(v@.subrange(lo as int, hi as int)) is None,
        },
    decreases hi - lo, 0nat,
{
    let ghost s = v@.subrange(lo as int, hi as int);
    let (a, b) = trim_range(v, lo, hi);
    let ghost t = v@.subrange(a as int, b as int);
    if is_primitive_range(v, a, b) {
        Some(TypeSignature::Primitive(string_of(v, a, b)))
    } else if a < b && v[a] == '(' {
        assert(t[0] == v@[a as int]);
        match find_arrow(v, a, b) {
            None => None,
            Some(pos) => {
                let (c, d) = trim_range(v, a, a + pos);
                assert(v@.subrange(a as int, a + pos) == t.subrange(0, pos as int));
                assert(v@.subrange(a + pos + 2, b as int) == t.subrange(
                    pos + 2,
                    t.len() as int,
                ));
                let ghost args = v@.subrange(c as int, d as int);
                if d - c < 2 || v[d - 1] != ')' {
                    assert(args.len() >= 2 ==> args.last() == v@[d - 1]);
                    None
                } else {
                    assert(args.last() == v@[d - 1]);
                    assert(v@.subrange(c + 1, d - 1) == args.subrange(1, args.len() - 1));
                    let params = handle_args(v, c + 1, d - 1);
                    let ret = parse_range(v, a + pos + 2, b);
                    match (params, ret) {
                        (Some(ps), Some(r)) => {
                            let sig = TypeSignature::Method(ps, Box::new(r));
                            assert(sig@ == SignatureView::Method(models(ps@), Box::new(r@))) by {
                                assert(sig@->Method_0 =~= models(ps@));
                            }
                            Some(sig)
                        },
                        _ => None,
                    }
                }
            },
        }
    } else if b - a >= 2 && v[b - 2] == '[' && v[b - 1] == ']' {
        assert(t[t.len() - 2] == v@[b - 2] && t[t.len() - 1] == v@[b - 1]);
        assert(v@.subrange(a as int, b - 2) == t.subrange(0, t.len() - 2));
        match parse_range(v, a, b - 2) {
            Some(inner) => Some(TypeSignature::Array(Box::new(inner))),
            None => None,
        }
    } else {
        assert(!is_method_shape(t)) by {
            if t.len() >= 1 {
                assert(t[0] == v@[a as int]);
            }
        }
        assert(!is_array_shape(t)) by {
            if t.len() >= 2 {
                assert(t[t.len() - 2] == v@[b - 2] && t[t.len() - 1] == v@[b - 1]);
            }
        }
        Some(TypeSignature::Class(string_of(v, a, b)))
    }
}

/// The parameters that stand in `v[lo..hi]`, between the parentheses of a
/// method, if all of them are signatures.
fn handle_args(v: &Vec<char>, lo: usize, hi: usize) -> (r: Option<Vec<TypeSignature>>)
    requires
        lo <= hi <= v.len(),
    ensures
        match r {
            Some(ps) => parse_args(v@.subrange(lo as int, hi as int)) == Some(models(ps@)),
            None => parse_args(v@.subrange(lo as int, hi as int)) is None,
        },
    decreases hi - lo, 2nat,
{
    let mut out: Vec<TypeSignature> = Vec::new();
    if lo == hi {
        assert(models(out@) =~= Seq::empty());
        Some(out)
    } else {
        assert(models(out@) =~= Seq::empty());
        if handle_list(v, lo, hi, &mut out) {
            assert(Seq::<SignatureView>::empty() + parse_list(
                v@.subrange(lo as int, hi as int),
            ).unwrap() =~= parse_list(v@.subrange(lo as int, hi as int)).unwrap());
            Some(out)
        } else {
            None
        }
    }
}

/// Puts the signatures that stand in `v[lo..hi]` between commas behind those
/// in `out`, if all of them are signatures.
fn handle_list(v: &Vec<char>, lo: usize, hi: usize, out: &mut Vec<TypeSignature>) -> (ok: bool)
    requires
        lo <= hi <= v.len(),
    ensures
        match parse_list(v@.subrange(lo as int, hi as int)) {
            Some(ps) => ok && models(final(out)@) == models(old(out)@) + ps,
            None => !ok,
        },
    decreases hi - lo, 1nat,
{
    let ghost s = v@.subrange(lo as int, hi as int);
    match find_comma(v, lo, hi) {
        None => match parse_range(v, lo, hi) {
            Some(p) => {
                out.push(p);
                assert(models(out@) =~= models(old(out)@) + seq![p@]);
                true
            },
            None => false,
        },
        Some(i) => {
            assert(v@.subrange(lo as int, lo + i) == s.subrange(0, i as int));
            assert(v@.subrange(lo + i + 1, hi as int) == s.subrange(i + 1, s.len() as int));
            match parse_range(v, lo, lo + i) {
                Some(p) => {
                    out.push(p);
                    let ghost mid = out@;
                    assert(models(mid) =~= models(old(out)@) + seq![p@]);
                    let ok = handle_list(v, lo + i + 1, hi, out);
                    proof {
                        if ok {
                            let rest = parse_list(s.subrange(i + 1, s.len() as int)).unwrap();
                            assert(models(out@) =~= models(old(out)@) + (seq![p@] + rest));
                        }
                    }
                    ok
                },
                None => false,
            }
        },
    }
}

/// The error of a signature that is malformed.
pub open spec fn malformed() -> ErrorView {
    ErrorView::General("Invalid class to mangle"@, JNI_ERR as int)
}

/// Parse a readable signature, or say that it is malformed.
pub fn parse_signature(name: &str) -> (r: Result<TypeSignature, Error>)
    ensures
        match r {
            Ok(sig) => parse(name@) == Some(sig@),
            Err(e) => parse(name@) is None && e@ == malformed(),
        },
{
    let v = chars_of(name);
    assert(v@.subrange(0, v.len() as int) == v@);
    match parse_range(&v, 0, v.len()) {
        Some(sig) => Ok(sig),
        None => Err(Error::new("Invalid class to mangle", JNI_ERR)),
    }
}

/// Parse a readable signature that is well formed.
pub fn mangle_class(name: &str) -> (sig: TypeSignature)
    requires
        parse(name@) is Some,
    ensures
        parse(name@) == Some(sig@),
{
    let v = chars_of(name);
    assert(v@.subrange(0, v.len() as int) == v@);
    match parse_range(&v, 0, v.len()) {
        Some(sig) => sig,
        None => TypeSignature::Class(String::new()),
    }
}

/// A dotted name with a slash for every dot.
pub open spec fn slashed(s: Seq<char>) -> Seq<char> {
    Seq::new(
        s.len(),
        |i: int|
            if s[i] == '.' {
                '/'
            } else {
                s[i]
            },
    )
}

/// A signature in the notation of the runtime: a primitive as its letter, a
/// class as `L`, its name with slashes, and `;`, an array as `[` before its
/// element type, a method as its parameters in parentheses, one behind the
/// other, before its result.
pub open spec fn mangled(v: SignatureView) -> Seq<char>
    decreases v,
{
    match v {
        SignatureView::Primitive(name) => primitive_symbol(name),
        SignatureView::Class(name) => seq!['L'] + slashed(name) + seq![';'],
        SignatureView::Array(inner) => seq!['['] + mangled(*inner),
        SignatureView::Method(params, ret) => seq!['('] + mangled_all(params) + seq![')']
            + mangled(*ret),
    }
}

/// The signatures of `params` in the notation of the runtime, one behind the
/// other.
pub open spec fn mangled_all(params: Seq<SignatureView>) -> Seq<char>
    decreases params,
{
    if params.len() == 0 {
        Seq::empty()
    } else {
        mangled_all(params.subrange(0, params.len() - 1)) + mangled(params[params.len() - 1])
    }
}

/// A signature in the readable notation.
pub open spec fn pretty(v: SignatureView) -> Seq<char>
    decreases v,
{
    match v {
        SignatureView::Primitive(name) => name,
        SignatureView::Class(name) => name,
        SignatureView::Array(inner) => pretty(*inner) + seq!['[', ']'],
        SignatureView::Method(params, ret) => seq!['('] + pretty_all(params) + seq![
            ')',
            ' ',
            '-',
            '>',
            ' ',
        ] + pretty(*ret),
    }
}

/// The signatures of `params` in the readable notation, with a comma and a
/// space between each two.
pub open spec fn pretty_all(params: Seq<SignatureView>) -> Seq<char>
    decreases params,
{
    if params.len() == 0 {
        Seq::empty()
    } else if params.len() == 1 {
        pretty(params[0])
    } else {
        pretty_all(params.subrange(0, params.len() - 1)) + seq![',', ' '] + pretty(
            params[params.len() - 1],
        )
    }
}

/// Whether a signature is the type of a value: a class, an array, or a
/// primitive with one of the nine names.
pub open spec fn is_value_type(v: SignatureView) -> bool {
    match v {
        SignatureView::Primitive(name) => is_primitive(name),
        SignatureView::Class(_) => true,
        SignatureView::Array(_) => true,
        SignatureView::Method(_, _) => false,
    }
}

/// The coarse type of a signature that is the type of a value.
pub open spec fn java_type(v: SignatureView) -> JType {
    match v {
        SignatureView::Primitive(name) => JType::of_name(name),
        _ => JType::Object,
    }
}

/// Whether `name` is the name of a primitive type.
pub fn is_primitive_name(name: &str) -> (r: bool)
    ensures
        r == is_primitive(name@),
{
    let v = chars_of(name);
    assert(v@.subrange(0, v.len() as int) == v@);
    is_primitive_range(&v, 0, v.len())
}

/// The letter by which the runtime names the primitive type `name`; the empty
/// text for any other name.
pub fn primitive_letter(name: &str) -> (r: &'static str)
    ensures
        r@ == primitive_symbol(name@),
{
    let v = chars_of(name);
    let n = v.len();
    assert(v@.subrange(0, n as int) == v@);
    proof {
        reveal_strlit("Z");
        reveal_strlit("B");
        reveal_strlit("C");
        reveal_strlit("S");
        reveal_strlit("I");
        reveal_strlit("J");
        reveal_strlit("F");
        reveal_strlit("D");
        reveal_strlit("V");
        reveal_strlit("");
    }
    if spells(&v, 0, n, "boolean") {
        assert("Z"@ =~= seq!['Z']);
        "Z"
    } else if spells(&v, 0, n, "byte") {
        assert("B"@ =~= seq!['B']);
        "B"
    } else if spells(&v, 0, n, "char") {
        assert("C"@ =~= seq!['C']);
        "C"
    } else if spells(&v, 0, n, "short") {
        assert("S"@ =~= seq!['S']);
        "S"
    } else if spells(&v, 0, n, "int") {
        assert("I"@ =~= seq!['I']);
        "I"
    } else if spells(&v, 0, n, "long") {
        assert("J"@ =~= seq!['J']);
        "J"
    } else if spells(&v, 0, n, "float") {
        assert("F"@ =~= seq!['F']);
        "F"
    } else if spells(&v, 0, n, "double") {
        assert("D"@ =~= seq!['D']);
        "D"
    } else if spells(&v, 0, n, "void") {
        assert("V"@ =~= seq!['V']);
        "V"
    } else {
        assert(""@ =~= Seq::<char>::empty());
        ""
    }
}

/// Puts `name`, with a slash for every dot, behind the text in `out`.
fn push_slashed(out: &mut String, name: &str)
    ensures
        final(out)@ == old(out)@ + slashed(name@),
{
    let v = chars_of(name);
    let mut i: usize = 0;
    while i < v.len()
        invariant
            i <= v.len(),
            v@ == name@,
            out@ == old(out)@ + slashed(name@).subrange(0, i as int),
        decreases v.len() - i,
    {
        let c = v[i];
        if c == '.' {
            out.push('/');
        } else {
            out.push(c);
        }
        i += 1;
        assert(out@ =~= old(out)@ + slashed(name@).subrange(0, i as int));
    }
    assert(slashed(name@).subrange(0, i as int) =~= slashed(name@));
}

impl TypeSignature {
    /// This signature in the notation of the runtime.
    pub fn mangled(&self) -> (r: String)
        ensures
            r@ == mangled(self@),
        decreases self,
    {
        match self {
            TypeSignature::Primitive(name) => String::from_str(primitive_letter(name.as_str())),
            TypeSignature::Class(name) => {
                let mut out = String::new();
                out.push('L');
                push_slashed(&mut out, name.as_str());
                out.push(';');
                assert(out@ =~= seq!['L'] + slashed(name@) + seq![';']);
                out
            },
            TypeSignature::Array(inner) => {
                let mut out = String::new();
                out.push('[');
                let lower = inner.mangled();
                out.append(lower.as_str());
                assert(out@ =~= seq!['['] + mangled(inner@));
                out
            },
            TypeSignature::Method(params, ret) => {
                let ghost ps = self@->Method_0;
                assert(ps =~= models(params@));
                let mut out = String::new();
                out.push('(');
                let mut i: usize = 0;
                while i < params.len()
                    invariant
                        i <= params.len(),
                        ps == models(params@),
                        self == (TypeSignature::Method(*params, *ret)),
                        out@ == seq!['('] + mangled_all(ps.subrange(0, i as int)),
                    decreases params.len() - i,
                {
                    assert(decreases_to!(self => params@[i as int])) by {
                        assert(self->Method_0 == *params);
                        assert(decreases_to!(self => self->Method_0));
                        assert(decreases_to!(self->Method_0 => self->Method_0@));
                        assert(decreases_to!(self->Method_0@ => self->Method_0@[i as int]));
                    }
                    let part = params[i].mangled();
                    out.append(part.as_str());
                    i += 1;
                    proof {
                        let upto = ps.subrange(0, i as int);
                        assert(upto.subrange(0, upto.len() - 1) =~= ps.subrange(0, i - 1));
                        assert(upto[upto.len() - 1] == params@[i - 1]@);
                        assert(out@ =~= seq!['('] + mangled_all(upto));
                    }
                }
                assert(ps.subrange(0, i as int) =~= ps);
                out.push(')');
                let ret_mangle = ret.mangled();
                out.append(ret_mangle.as_str());
                assert(out@ =~= seq!['('] + mangled_all(ps) + seq![')'] + mangled(ret@));
                out
            },
        }
    }

    /// This signature in the readable notation.
    pub fn pretty(&self) -> (r: String)
        ensures
            r@ == pretty(self@),
        decreases self,
    {
        match self {
            TypeSignature::Primitive(name) => name.clone(),
            TypeSignature::Class(name) => name.clone(),
            TypeSignature::Array(inner) => {
                let mut out = inner.pretty();
                out.push('[');
                out.push(']');
                assert(out@ =~= pretty(inner@) + seq!['[', ']']);
                out
            },
            TypeSignature::Method(params, ret) => {
                let ghost ps = self@->Method_0;
                assert(ps =~= models(params@));
                let mut out = String::new();
                out.push('(');
                let mut i: usize = 0;
                while i < params.len()
                    invariant
                        i <= params.len(),
                        ps == models(params@),
                        self == (TypeSignature::Method(*params, *ret)),
                        out@ == seq!['('] + pretty_all(ps.subrange(0, i as int)),
                    decreases params.len() - i,
                {
                    if i > 0 {
                        out.push(',');
                        out.push(' ');
                    }
                    assert(decreases_to!(self => params@[i as int])) by {
                        assert(self->Method_0 == *params);
                        assert(decreases_to!(self => self->Method_0));
                        assert(decreases_to!(self->Method_0 => self->Method_0@));
                        assert(decreases_to!(self->Method_0@ => self->Method_0@[i as int]));
                    }
                    let part = params[i].pretty();
                    out.append(part.as_str());
                    i += 1;
                    proof {
                        let upto = ps.subrange(0, i as int);
                        assert(upto.subrange(0, upto.len() - 1) =~= ps.subrange(0, i - 1));
                        assert(upto[upto.len() - 1] == params@[i - 1]@);
                        assert(upto[0] == params@[0]@);
                        assert(out@ =~= seq!['('] + pretty_all(upto));
                    }
                }
                assert(ps.subrange(0, i as int) =~= ps);
                out.push(')');
                out.push(' ');
                out.push('-');
                out.push('>');
                out.push(' ');
                let ret_pretty = ret.pretty();
                out.append(ret_pretty.as_str());
                assert(out@ =~= seq!['('] + pretty_all(ps) + seq![')', ' ', '-', '>', ' ']
                    + pretty(ret@));
                out
            },
        }
    }

    /// The coarse type of this signature: the matching primitive type, or an
    /// object for a class or an array. A method has none, nor has a primitive
    /// with a name that is not one of the nine.
    pub fn java_type(&self) -> (ty: JType)
        requires
            is_value_type(self@),
        ensures
            ty == java_type(self@),
    {
        match self {
            TypeSignature::Primitive(name) => JType::from_name(name.as_str()),
            _ => JType::Object,
        }
    }

    /// The coarse type of this signature, if it is the type of a value.
    pub fn value_type(&self) -> (r: Option<JType>)
        ensures
            match r {
                Some(ty) => is_value_type(self@) && ty == java_type(self@),
                None => !is_value_type(self@),
            },
    {
        match self {
            TypeSignature::Primitive(name) => {
                if is_primitive_name(name.as_str()) {
                    Some(JType::from_name(name.as_str()))
                } else {
                    None
                }
            },
            TypeSignature::Class(_) => Some(JType::Object),
            TypeSignature::Array(_) => Some(JType::Object),
            TypeSignature::Method(_, _) => None,
        }
    }
}

/// Whether `s` holds only white space from `from` up to `to`.
pub open spec fn blank(s: Seq<char>, from: int, to: int) -> bool {
    forall|i: int| from <= i < to ==> is_space(#[trigger] s[i])
}

proof fn lemma_skip_prefix(s: Seq<char>, a: int)
    requires
        0 <= a <= s.len(),
        blank(s, 0, a),
    ensures
        skip_space(s) == skip_space(s.subrange(a, s.len() as int)),
    decreases a,
{
    if a == 0 {
        assert(s.subrange(0, s.len() as int) =~= s);
    } else {
        assert(is_space(s[0]));
        let rest = s.drop_first();
        assert forall|i: int| 0 <= i < a - 1 implies is_space(#[trigger] rest[i]) by {
            assert(rest[i] == s[i + 1]);
        }
        lemma_skip_prefix(rest, a - 1);
        assert(rest.subrange(a - 1, rest.len() as int) =~= s.subrange(a, s.len() as int));
    }
}

proof fn lemma_drop_suffix(s: Seq<char>, b: int)
    requires
        0 <= b <= s.len(),
        blank(s, b, s.len() as int),
    ensures
        drop_space(s) == drop_space(s.subrange(0, b)),
    decreases s.len() - b,
{
    if b == s.len() {
        assert(s.subrange(0, b) =~= s);
    } else {
        assert(is_space(s[s.len() - 1]));
        let rest = s.drop_last();
        assert forall|i: int| b <= i < rest.len() implies is_space(#[trigger] rest[i]) by {
            assert(rest[i] == s[i]);
        }
        lemma_drop_suffix(rest, b);
        assert(rest.subrange(0, b) =~= s.subrange(0, b));
    }
}

/// What remains of `s` when the white space around it is taken away is the
/// part between `a` and `b`, if only white space stands before `a` and behind
/// `b` and the part is empty or starts and ends with something else.
pub proof fn lemma_trim_is(s: Seq<char>, a: int, b: int)
    requires
        0 <= a <= b <= s.len(),
        blank(s, 0, a),
        blank(s, b, s.len() as int),
        a == b || (!is_space(s[a]) && !is_space(s[b - 1])),
    ensures
        trim(s) == s.subrange(a, b),
{
    lemma_skip_prefix(s, a);
    let u = s.subrange(a, s.len() as int);
    if a == b {
        assert forall|i: int| 0 <= i < u.len() implies is_space(#[trigger] u[i]) by {
            assert(u[i] == s[a + i]);
        }
        lemma_skip_prefix(u, u.len() as int);
        assert(u.subrange(u.len() as int, u.len() as int) =~= Seq::<char>::empty());
        assert(s.subrange(a, b) =~= Seq::<char>::empty());
    } else {
        assert(u[0] == s[a]);
        assert(skip_space(u) == u);
        assert forall|i: int| b - a <= i < u.len() implies is_space(#[trigger] u[i]) by {
            assert(u[i] == s[a + i]);
        }
        lemma_drop_suffix(u, b - a);
        let w = u.subrange(0, b - a);
        assert(w =~= s.subrange(a, b));
        assert(w.last() == s[b - 1]);
        assert(drop_space(w) == w);
    }
}

proof fn lemma_skip_bounds(s: Seq<char>) -> (a: int)
    ensures
        0 <= a <= s.len(),
        blank(s, 0, a),
        a == s.len() || !is_space(s[a]),
    decreases s.len(),
{
    if s.len() > 0 && is_space(s[0]) {
        let rest = s.drop_first();
        let k = lemma_skip_bounds(rest);
        assert forall|i: int| 0 <= i < k + 1 implies is_space(#[trigger] s[i]) by {
            if i > 0 {
                assert(s[i] == rest[i - 1]);
            }
        }
        if k < rest.len() {
            assert(rest[k] == s[k + 1]);
        }
        k + 1
    } else {
        0
    }
}

proof fn lemma_drop_bounds(s: Seq<char>) -> (b: int)
    ensures
        0 <= b <= s.len(),
        blank(s, b, s.len() as int),
        b == 0 || !is_space(s[b - 1]),
    decreases s.len(),
{
    if s.len() > 0 && is_space(s.last()) {
        let rest = s.drop_last();
        let k = lemma_drop_bounds(rest);
        assert forall|i: int| k <= i < s.len() implies is_space(#[trigger] s[i]) by {
            if i < rest.len() {
                assert(s[i] == rest[i]);
            }
        }
        if k > 0 {
            assert(rest[k - 1] == s[k - 1]);
        }
        k
    } else {
        s.len() as int
    }
}

/// The white space around `s` can be taken away: the bounds of what remains.
pub proof fn lemma_trim_bounds(s: Seq<char>) -> (r: (int, int))
    ensures
        0 <= r.0 <= r.1 <= s.len(),
        blank(s, 0, r.0),
        blank(s, r.1, s.len() as int),
        r.0 == r.1 || (!is_space(s[r.0]) && !is_space(s[r.1 - 1])),
        trim(s) == s.subrange(r.0, r.1),
{
    let a = lemma_skip_bounds(s);
    let b = lemma_drop_bounds(s);
    if a >= b {
        assert forall|i: int| a <= i < s.len() implies is_space(#[trigger] s[i]) by {}
        lemma_trim_is(s, a, a);
        (a, a)
    } else {
        lemma_trim_is(s, a, b);
        (a, b)
    }
}

/// What a text stands for depends only on what remains of it when the white
/// space around it is taken away.
pub proof fn lemma_parse_by_trim(x: Seq<char>, y: Seq<char>)
    requires
        trim(x) == trim(y),
    ensures
        parse(x) == parse(y),
{
}

/// A text that does not start with an opening parenthesis, white space
/// apart, is well formed.
pub proof fn lemma_value_parses(x: Seq<char>)
    requires
        !is_method_shape(trim(x)),
    ensures
        parse(x) is Some,
        is_value_type(parse(x).unwrap()),
    decreases x.len(),
{
    let t = trim(x);
    lemma_trim_len(x);
    if !is_primitive(t) && is_array_shape(t) {
        let inner = t.subrange(0, t.len() - 2);
        let (a, b) = lemma_trim_bounds(x);
        let (c, d) = lemma_trim_bounds(inner);
        if c < d {
            assert(trim(inner)[0] == inner[c]);
            if c > 0 {
                assert(is_space(inner[0]));
                assert(inner[0] == t[0]);
                assert(t[0] == x[a]);
            } else {
                assert(inner[0] == t[0]);
            }
        }
        lemma_value_parses(inner);
    }
}

proof fn lemma_first_arrow_is(s: Seq<char>, pos: int)
    requires
        arrow_at(s, pos),
        forall|j: int| 0 <= j < pos ==> !arrow_at(s, j),
    ensures
        first_arrow(s) == Some(pos),
{
    lemma_arrow_bounds(s, 0);
}

proof fn lemma_first_comma_is(s: Seq<char>, pos: int)
    requires
        0 <= pos < s.len(),
        s[pos] == ',',
        forall|j: int| 0 <= j < pos ==> s[j] != ',',
    ensures
        first_comma(s) == Some(pos),
{
    lemma_comma_bounds(s, 0);
}

proof fn lemma_no_comma(s: Seq<char>)
    requires
        forall|j: int| 0 <= j < s.len() ==> s[j] != ',',
    ensures
        first_comma(s) is None,
{
    lemma_comma_bounds(s, 0);
}

/// The nine primitive names, spelled out.
proof fn lemma_primitive_names(p: Seq<char>)
    requires
        is_primitive(p),
    ensures
        4 <= p.len() + 1 <= 8,
        forall|i: int| 0 <= i < p.len() ==> 'a' <= #[trigger] p[i] <= 'z',
{
    reveal_strlit("boolean");
    reveal_strlit("byte");
    reveal_strlit("char");
    reveal_strlit("short");
    reveal_strlit("int");
    reveal_strlit("long");
    reveal_strlit("float");
    reveal_strlit("double");
    reveal_strlit("void");
}

/// Every primitive name stands for itself and is rendered as its letter; the
/// name followed by `[]` stands for the array of the primitive and is rendered
/// as `[` before the letter.
pub proof fn lemma_primitive_round_trip(p: Seq<char>)
    requires
        is_primitive(p),
    ensures
        parse(p) == Some(SignatureView::Primitive(p)),
        mangled(parse(p).unwrap()) == primitive_symbol(p),
        primitive_symbol(p).len() == 1,
        parse(p + seq!['[', ']']) == Some(
            SignatureView::Array(Box::new(SignatureView::Primitive(p))),
        ),
        mangled(parse(p + seq!['[', ']']).unwrap()) == seq!['['] + primitive_symbol(p),
{
    lemma_primitive_names(p);
    assert(!is_space(p[0]) && !is_space(p[p.len() - 1]));
    lemma_trim_is(p, 0, p.len() as int);
    assert(p.subrange(0, p.len() as int) =~= p);
    let q = p + seq!['[', ']'];
    assert(q[0] == p[0]);
    assert(q[q.len() - 1] == ']');
    assert(q[q.len() - 2] == '[');
    lemma_trim_is(q, 0, q.len() as int);
    assert(q.subrange(0, q.len() as int) =~= q);
    assert(!is_primitive(q)) by {
        if is_primitive(q) {
            lemma_primitive_names(q);
            assert('a' <= q[q.len() - 1] <= 'z');
        }
    }
    assert(q.subrange(0, q.len() - 2) =~= p);
    let prim = SignatureView::Primitive(p);
    assert(mangled(prim) == primitive_symbol(p));
    assert(mangled(SignatureView::Array(Box::new(prim))) == seq!['['] + mangled(prim));
    assert(primitive_symbol(p).len() == 1);
}

/// The text `(a, b)`.
pub open spec fn paren_text(a: Seq<char>, b: Seq<char>) -> Seq<char> {
    seq!['('] + a + seq![',', ' '] + b + seq![')']
}

/// The text `(a, b) -> c`.
pub open spec fn method_text(a: Seq<char>, b: Seq<char>, c: Seq<char>) -> Seq<char> {
    paren_text(a, b) + seq![' ', '-', '>', ' '] + c
}

/// What remains of `s` when the white space at its end is taken away is the
/// part before `b`, if only white space stands behind `b` and the part is
/// empty or ends with something else.
proof fn lemma_drop_is(s: Seq<char>, b: int)
    requires
        0 <= b <= s.len(),
        blank(s, b, s.len() as int),
        b == 0 || !is_space(s[b - 1]),
    ensures
        drop_space(s) == s.subrange(0, b),
{
    lemma_drop_suffix(s, b);
    let w = s.subrange(0, b);
    if b > 0 {
        assert(w.last() == s[b - 1]);
    }
    assert(drop_space(w) == w);
}

/// Behind a text that ends with something other than white space, the white
/// space at the end is taken away from what follows alone.
proof fn lemma_drop_after(h: Seq<char>, y: Seq<char>)
    requires
        h.len() > 0,
        !is_space(h.last()),
    ensures
        drop_space(h + y) == h + drop_space(y),
    decreases y.len(),
{
    if y.len() == 0 {
        assert(h + y =~= h);
        assert(h + drop_space(y) =~= h);
    } else if is_space(y.last()) {
        assert((h + y).last() == y.last());
        assert((h + y).drop_last() =~= h + y.drop_last());
        lemma_drop_after(h, y.drop_last());
    } else {
        assert((h + y).last() == y.last());
    }
}

/// To take the white space at the end away first makes no difference to what
/// remains when the white space around a text is taken away.
proof fn lemma_trim_of_dropped(y: Seq<char>)
    ensures
        trim(drop_space(y)) == trim(y),
{
    let (a, b) = lemma_trim_bounds(y);
    if a == b {
        assert(blank(y, 0, y.len() as int));
        lemma_drop_is(y, 0);
        let d = y.subrange(0, 0);
        lemma_trim_is(d, 0, 0);
        assert(d.subrange(0, 0) =~= y.subrange(a, b));
    } else {
        lemma_drop_is(y, b);
        let d = y.subrange(0, b);
        assert(blank(d, 0, a)) by {
            assert forall|i: int| 0 <= i < a implies is_space(#[trigger] d[i]) by {
                assert(d[i] == y[i]);
            }
        }
        assert(d[a] == y[a] && d[b - 1] == y[b - 1]);
        lemma_trim_is(d, a, b);
        assert(d.subrange(a, b) =~= y.subrange(a, b));
    }
}

/// A space before a text makes no difference to what remains when the white
/// space around it is taken away.
proof fn lemma_trim_after_space(c: Seq<char>)
    ensures
        trim(seq![' '] + c) == trim(c),
{
    let y = seq![' '] + c;
    assert(is_space(y[0]));
    assert(y.drop_first() =~= c);
}

/// Without the white space around it, `(a, b) -> c` is `(a, b) ->` and a rest
/// that stands for what `c` stands for.
proof fn lemma_method_text_trim(a: Seq<char>, b: Seq<char>, c: Seq<char>) -> (tail: Seq<char>)
    ensures
        trim(method_text(a, b, c)) == paren_text(a, b) + seq![' ', '-', '>'] + tail,
        parse(tail) == parse(c),
{
    let s = method_text(a, b, c);
    let h = paren_text(a, b) + seq![' ', '-', '>'];
    let y = seq![' '] + c;
    let tail = drop_space(y);
    assert(s == h + y) by {
        assert(s =~= h + y);
    }
    assert(skip_space(s) == s) by {
        assert(s[0] == '(');
    }
    assert(drop_space(s) == h + tail) by {
        assert(h.last() == '>');
        lemma_drop_after(h, y);
    }
    assert(trim(tail) == trim(c)) by {
        lemma_trim_of_dropped(y);
        lemma_trim_after_space(c);
    }
    lemma_parse_by_trim(tail, c);
    tail
}

/// In `(a, b) ->` and a rest, the first arrow is the one that is written out,
/// where `a` and `b` hold none.
proof fn lemma_method_text_arrow(a: Seq<char>, b: Seq<char>, tail: Seq<char>)
    requires
        forall|i: int| !arrow_at(a, i),
        forall|i: int| !arrow_at(b, i),
    ensures
        ({
            let t = paren_text(a, b) + seq![' ', '-', '>'] + tail;
            let pos = paren_text(a, b).len() as int + 1;
            &&& !is_primitive(t)
            &&& is_method_shape(t)
            &&& first_arrow(t) == Some(pos)
            &&& trim(t.subrange(0, pos)) == paren_text(a, b)
            &&& t.subrange(pos + 2, t.len() as int) == tail
        }),
{
    let t = paren_text(a, b) + seq![' ', '-', '>'] + tail;
    let la = a.len() as int;
    let lb = b.len() as int;
    let pos = la + lb + 5;
    assert(t[0] == '(');
    assert forall|i: int| 0 <= i < la implies t[1 + i] == a[i] by {}
    assert(t[la + 1] == ',');
    assert(t[la + 2] == ' ');
    assert forall|i: int| 0 <= i < lb implies t[la + 3 + i] == b[i] by {}
    assert(t[la + lb + 3] == ')');
    assert(t[la + lb + 4] == ' ');
    assert(t[pos] == '-');
    assert(t[pos + 1] == '>');
    assert(!is_primitive(t)) by {
        if is_primitive(t) {
            lemma_primitive_names(t);
            assert('a' <= t[0] <= 'z');
        }
    }
    assert(arrow_at(t, pos));
    assert forall|j: int| 0 <= j < pos implies !arrow_at(t, j) by {
        if 1 <= j < la {
            assert(!arrow_at(a, j - 1));
            assert(t[j] == a[j - 1] && t[j + 1] == a[j]);
        } else if la + 3 <= j < la + 3 + lb - 1 {
            assert(!arrow_at(b, j - la - 3));
            assert(t[j] == b[j - la - 3] && t[j + 1] == b[j - la - 2]);
        }
    }
    lemma_first_arrow_is(t, pos);
    let before = t.subrange(0, pos);
    assert(before[0] == t[0]);
    assert(before[pos - 1] == t[pos - 1]);
    assert(before[pos - 2] == t[pos - 2]);
    assert forall|i: int| pos - 1 <= i < before.len() implies is_space(#[trigger] before[i]) by {}
    lemma_trim_is(before, 0, pos - 1);
    assert(before.subrange(0, pos - 1) =~= paren_text(a, b));
    assert(t.subrange(pos + 2, t.len() as int) =~= tail);
}

/// Between the parentheses of `(a, b)` stand what `a` and `b` stand for, where
/// neither holds a comma.
proof fn lemma_two_params(a: Seq<char>, b: Seq<char>)
    requires
        parse(a) is Some,
        parse(b) is Some,
        forall|i: int| 0 <= i < a.len() ==> a[i] != ',',
        forall|i: int| 0 <= i < b.len() ==> b[i] != ',',
    ensures
        ({
            let args = paren_text(a, b);
            &&& args.len() >= 2
            &&& args.last() == ')'
            &&& parse_args(args.subrange(1, args.len() - 1)) == Some(
                seq![parse(a).unwrap(), parse(b).unwrap()],
            )
        }),
{
    let args = paren_text(a, b);
    let la = a.len() as int;
    let lb = b.len() as int;
    let pa = parse(a).unwrap();
    let pb = parse(b).unwrap();
    let inner = args.subrange(1, args.len() - 1);
    assert(inner =~= a + seq![',', ' '] + b);
    assert forall|i: int| 0 <= i < la implies inner[i] == a[i] by {}
    assert(inner[la] == ',');
    lemma_first_comma_is(inner, la);
    assert(inner.subrange(0, la) =~= a);
    let rest = inner.subrange(la + 1, inner.len() as int);
    assert(rest =~= seq![' '] + b);
    assert(rest[0] == ' ');
    assert forall|i: int| 0 <= i < lb implies rest[1 + i] == b[i] by {}
    lemma_no_comma(rest);
    let (ba, bb) = lemma_trim_bounds(b);
    assert forall|i: int| 0 <= i < 1 + ba implies is_space(#[trigger] rest[i]) by {
        if i > 0 {
            assert(rest[i] == b[i - 1]);
        }
    }
    assert forall|i: int| 1 + bb <= i < rest.len() implies is_space(#[trigger] rest[i]) by {
        assert(rest[i] == b[i - 1]);
    }
    lemma_trim_is(rest, 1 + ba, 1 + bb);
    assert(rest.subrange(1 + ba, 1 + bb) =~= b.subrange(ba, bb));
    lemma_parse_by_trim(rest, b);
    assert(parse_list(rest) == Some(seq![pb]));
    assert(seq![pa] + seq![pb] =~= seq![pa, pb]);
    assert(parse_list(inner) == Some(seq![pa, pb]));
}

/// A method of two parameters in the notation of the runtime.
proof fn lemma_mangled_two(pa: SignatureView, pb: SignatureView, pc: SignatureView)
    ensures
        mangled(SignatureView::Method(seq![pa, pb], Box::new(pc))) == seq!['('] + mangled(pa)
            + mangled(pb) + seq![')'] + mangled(pc),
{
    let both = seq![pa, pb];
    assert(both.subrange(0, 1) =~= seq![pa]);
    assert(seq![pa].subrange(0, 0) =~= Seq::<SignatureView>::empty());
    assert(mangled_all(Seq::<SignatureView>::empty()) =~= Seq::<char>::empty());
    assert(mangled_all(seq![pa]) =~= mangled(pa));
    assert(mangled_all(both) =~= mangled(pa) + mangled(pb));
}

/// A method of two parameters is rendered as its parameters in parentheses,
/// one behind the other, and its result: for texts `a`, `b` and `c` that do
/// not start with an opening parenthesis, white space apart, where `a` and `b`
/// hold neither a comma nor an arrow, the text `(a, b) -> c` stands for the
/// method from what `a` and `b` stand for to what `c` stands for.
pub proof fn lemma_method_round_trip(a: Seq<char>, b: Seq<char>, c: Seq<char>)
    requires
        !is_method_shape(trim(a)),
        !is_method_shape(trim(b)),
        !is_method_shape(trim(c)),
        forall|i: int| 0 <= i < a.len() ==> a[i] != ',',
        forall|i: int| 0 <= i < b.len() ==> b[i] != ',',
        forall|i: int| !arrow_at(a, i),
        forall|i: int| !arrow_at(b, i),
    ensures
        parse(a) is Some,
        parse(b) is Some,
        parse(c) is Some,
        parse(method_text(a, b, c)) == Some(
            SignatureView::Method(
                seq![parse(a).unwrap(), parse(b).unwrap()],
                Box::new(parse(c).unwrap()),
            ),
        ),
        mangled(parse(method_text(a, b, c)).unwrap()) == seq!['('] + mangled(parse(a).unwrap())
            + mangled(parse(b).unwrap()) + seq![')'] + mangled(parse(c).unwrap()),
{
    lemma_value_parses(a);
    lemma_value_parses(b);
    lemma_value_parses(c);
    let tail = lemma_method_text_trim(a, b, c);
    lemma_method_text_arrow(a, b, tail);
    lemma_two_params(a, b);
    lemma_mangled_two(parse(a).unwrap(), parse(b).unwrap(), parse(c).unwrap());
}

} // verus!
