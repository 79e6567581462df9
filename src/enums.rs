use vstd::prelude::*;

verus! {

/// Fixed-width integer that backs an enum on the wire.
#[derive(Clone, Copy, Debug, PartialEq, Eq, Structural)]
pub enum Primitive {
    U8,
    U16,
    U32,
    U64,
    I8,
    I16,
    I32,
    I64,
}

/// A variant as declared: its name, the literal written for it if any, and
/// whether it is hidden from the bindings.
pub struct VariantDecl {
    pub name: String,
    pub explicit: Option<i64>,
    pub skip: bool,
    pub doc: String,
}

/// A variant as emitted, with its numeric value.
pub struct EnumVariant {
    pub name: String,
    pub value: i128,
    pub doc: String,
}

/// The fixed-width type that a `repr` name denotes, if it denotes one.
pub open spec fn primitive_of_name(s: Seq<char>) -> Option<Primitive> {
    if s == seq!['u', '8'] {
        Some(Primitive::U8)
    } else if s == seq!['u', '1', '6'] {
        Some(Primitive::U16)
    } else if s == seq!['u', '3', '2'] {
        Some(Primitive::U32)
    } else if s == seq!['u', '6', '4'] {
        Some(Primitive::U64)
    } else if s == seq!['i', '8'] {
        Some(Primitive::I8)
    } else if s == seq!['i', '1', '6'] {
        Some(Primitive::I16)
    } else if s == seq!['i', '3', '2'] {
        Some(Primitive::I32)
    } else if s == seq!['i', '6', '4'] {
        Some(Primitive::I64)
    } else {
        None
    }
}

/// A `repr` name that an exported enum may carry: a fixed width, or `C`.
pub open spec fn is_valid_repr(s: Seq<char>) -> bool {
    primitive_of_name(s).is_some() || s == seq!['C']
}

/// The first valid `repr` name among `names`.
pub open spec fn first_valid_repr(names: Seq<Seq<char>>) -> Option<Seq<char>>
    decreases names.len(),
{
    if names.len() == 0 {
        None
    } else if is_valid_repr(names[0]) {
        Some(names[0])
    } else {
        first_valid_repr(names.drop_first())
    }
}

/// Numeric value of the variant at `i`: its literal, or one more than the
/// value of the variant before it (zero for the first). Hidden variants count.
pub open spec fn value_at(d: Seq<VariantDecl>, i: int) -> int
    decreases i,
{
    if 0 <= i < d.len() && d[i].explicit.is_some() {
        d[i].explicit.unwrap() as int
    } else if i <= 0 {
        0
    } else {
        value_at(d, i - 1) + 1
    }
}

/// The variants among the first `n` declarations that are emitted, as
/// name, value and documentation, in declaration order.
pub open spec fn emitted(d: Seq<VariantDecl>, n: int) -> Seq<(Seq<char>, int, Seq<char>)>
    decreases n,
{
    if n <= 0 {
        Seq::empty()
    } else if d[n - 1].skip {
        emitted(d, n - 1)
    } else {
        emitted(d, n - 1).push((d[n - 1].name@, value_at(d, n - 1), d[n - 1].doc@))
    }
}

/// Name, value and documentation of each variant.
pub open spec fn variants_view(v: Seq<EnumVariant>) -> Seq<(Seq<char>, int, Seq<char>)> {
    v.map_values(|x: EnumVariant| (x.name@, x.value as int, x.doc@))
}

/// Whether two variants share a value.
pub open spec fn has_collision(v: Seq<EnumVariant>) -> bool {
    exists|i: int, j: int| 0 <= i < j < v.len() && v[i].value == v[j].value
}

/// The fixed-width type that the `repr` name `s` denotes; `None` for `C` and
/// for any other name.
pub fn primitive_of_repr(s: &str) -> (r: Option<Primitive>)
    ensures
        r == primitive_of_name(s@),
{
    let n = s.unicode_len();
    if n == 2 {
        let a = s.get_char(0);
        let b = s.get_char(1);
        assert(s@ =~= seq![a, b]);
        if a == 'u' && b == '8' {
            Some(Primitive::U8)
        } else if a == 'i' && b == '8' {
            Some(Primitive::I8)
        } else {
            None
        }
    } else if n == 3 {
        let a = s.get_char(0);
        let b = s.get_char(1);
        let c = s.get_char(2);
        assert(s@ =~= seq![a, b, c]);
        let unsigned = a == 'u';
        if a != 'u' && a != 'i' {
            None
        } else if b == '1' && c == '6' {
            if unsigned { Some(Primitive::U16) } else { Some(Primitive::I16) }
        } else if b == '3' && c == '2' {
            if unsigned { Some(Primitive::U32) } else { Some(Primitive::I32) }
        } else if b == '6' && c == '4' {
            if unsigned { Some(Primitive::U64) } else { Some(Primitive::I64) }
        } else {
            None
        }
    } else {
        None
    }
}

/// Whether `s` is a `repr` name that an exported enum may carry.
pub fn is_valid_repr_name(s: &str) -> (r: bool)
    ensures
        r == is_valid_repr(s@),
{
    if primitive_of_repr(s).is_some() {
        true
    } else if s.unicode_len() == 1 {
        let a = s.get_char(0);
        assert(s@ =~= seq![a]);
        a == 'C'
    } else {
        assert(s@.len() != 1);
        false
    }
}

/// The first valid name among the arguments of an enum's `repr` attributes,
/// in the order written.
pub fn find_valid_repr(names: &Vec<String>) -> (r: Option<String>)
    ensures
        r matches Some(x) ==> first_valid_repr(names@.map_values(|s: String| s@)) == Some(x@),
        r is None ==> first_valid_repr(names@.map_values(|s: String| s@)) is None,
{
    let ghost all = names@.map_values(|s: String| s@);
    let mut i: usize = 0;
    assert(all.subrange(0, all.len() as int) =~= all);
    while i < names.len()
        invariant
            i <= names.len(),
            all == names@.map_values(|s: String| s@),
            first_valid_repr(all) == first_valid_repr(all.subrange(i as int, all.len() as int)),
        decreases names.len() - i,
    {
        let ghost rest = all.subrange(i as int, all.len() as int);
        assert(rest.drop_first() =~= all.subrange(i + 1, all.len() as int));
        if is_valid_repr_name(names[i].as_str()) {
            return Some(names[i].clone());
        }
        i = i + 1;
    }
    assert(all.subrange(i as int, all.len() as int).len() == 0);
    None
}

/// Numbers the declared variants and drops the hidden ones. A variant without
/// a literal takes one more than the variant before it, hidden or not; the
/// first takes zero.
pub fn assign_variant_values(decls: &Vec<VariantDecl>) -> (r: Vec<EnumVariant>)
    ensures
        variants_view(r@) == emitted(decls@, decls@.len() as int),
{
    let mut out: Vec<EnumVariant> = Vec::new();
    let mut next_id: i128 = 0;
    let mut i: usize = 0;
    while i < decls.len()
        invariant
            i <= decls.len(),
            next_id == (if i == 0 { 0 } else { value_at(decls@, i - 1) + 1 }),
            i64::MIN <= next_id <= i64::MAX + 1 + i,
            variants_view(out@) == emitted(decls@, i as int),
        decreases decls.len() - i,
    {
        let d = &decls[i];
        let this_id: i128 = match d.explicit {
            Some(v) => v as i128,
            None => next_id,
        };
        next_id = this_id + 1;
        if !d.skip {
            out.push(EnumVariant { name: d.name.clone(), value: this_id, doc: d.doc.clone() });
        }
        assert(variants_view(out@) =~= emitted(decls@, i + 1));
        i = i + 1;
    }
    out
}

/// Whether two of the variants share a value.
pub fn find_collision(variants: &Vec<EnumVariant>) -> (r: bool)
    ensures
        r == has_collision(variants@),
{
    let mut j: usize = 0;
    while j < variants.len()
        invariant
            j <= variants.len(),
            forall|a: int, b: int|
                0 <= a < b < j ==> variants@[a].value != variants@[b].value,
        decreases variants.len() - j,
    {
        let mut i: usize = 0;
        while i < j
            invariant
                i <= j < variants.len(),
                forall|a: int| 0 <= a < i ==> variants@[a].value != variants@[j as int].value,
            decreases j - i,
        {
            if variants[i].value == variants[j].value {
                return true;
            }
            i = i + 1;
        }
        j = j + 1;
    }
    false
}

/// Variants without literals are numbered by their position in the
/// declaration, hidden ones included.
pub proof fn lemma_implicit_values_are_positions(d: Seq<VariantDecl>, i: int)
    requires
        0 <= i < d.len(),
        forall|k: int| 0 <= k < d.len() ==> d[k].explicit is None,
    ensures
        value_at(d, i) == i,
    decreases i,
{
    if i > 0 {
        lemma_implicit_values_are_positions(d, i - 1);
    }
}

/// A literal sets its variant's value, and the next variant without a
/// literal continues from it.
pub proof fn lemma_literal_resets_counter(d: Seq<VariantDecl>, i: int)
    requires
        0 <= i < d.len(),
        d[i].explicit is Some,
    ensures
        value_at(d, i) == d[i].explicit.unwrap() as int,
        i + 1 < d.len() && d[i + 1].explicit is None ==> value_at(d, i + 1) == d[i].explicit.unwrap() as int + 1,
{
    if i + 1 < d.len() && d[i + 1].explicit is None {
        assert(value_at(d, i + 1) == value_at(d, i) + 1);
    }
}

} // verus!
