use crate::enums::{
    assign_variant_values, emitted, find_collision, find_valid_repr, first_valid_repr, has_collision,
    primitive_of_name, primitive_of_repr, variants_view, EnumVariant, Primitive, VariantDecl,
};
use vstd::prelude::*;

verus! {

/// An enum of the interface. It is an error-code pattern when `success`
/// designates one of its variants as the success sentinel.
pub struct EnumType {
    pub ffi_name: String,
    pub variants: Vec<EnumVariant>,
    pub backing: Option<Primitive>,
    pub doc: String,
    pub namespace: String,
    /// Whether variants may share a value.
    pub sparse: bool,
    /// Index of the success variant, for an error-code pattern.
    pub success: Option<usize>,
}

/// A method of a class pattern, exposed as a free function on the handle.
pub struct MethodBinding {
    pub exposed_symbol: String,
    pub method_name: String,
    pub takes_mut_self: bool,
    /// Whether the native method returns a `Result`.
    pub fallible: bool,
    /// Index, among the inventory's enums, of the error-code pattern that
    /// the result is reported through.
    pub return_conversion: Option<usize>,
}

/// An object-with-methods idiom over an opaque handle.
pub struct ClassPattern {
    pub name: String,
    pub constructor: String,
    pub destructor: String,
    pub methods: Vec<MethodBinding>,
    pub extra: Vec<String>,
}

/// A plain exported function and the type names of its parameters.
pub struct Function {
    pub symbol: String,
    pub param_types: Vec<String>,
}

/// Everything that one generation pass projects.
pub struct Inventory {
    pub enums: Vec<EnumType>,
    pub classes: Vec<ClassPattern>,
    pub functions: Vec<Function>,
}

/// Why an inventory cannot be projected.
#[derive(Clone, Copy, Debug, PartialEq, Eq, Structural)]
pub enum GenError {
    UnsupportedEnumRepresentation,
    DuplicateSymbol,
    MissingReturnConversion,
    UnmappablePrimitive,
    InvalidDiscriminant,
}

/// Whether `e` designates one of its variants as success sentinel.
pub open spec fn is_error_enum(e: EnumType) -> bool {
    e.success matches Some(j) && j < e.variants@.len()
}

/// The success sentinel's value of an error-code pattern.
pub open spec fn success_value(e: EnumType) -> int {
    e.variants@[e.success.unwrap() as int].value as int
}

/// The names a class pattern exposes, in emission order.
pub open spec fn class_symbols(c: ClassPattern) -> Seq<Seq<char>> {
    seq![c.name@, c.constructor@, c.destructor@] + c.methods@.map_values(
        |m: MethodBinding| m.exposed_symbol@,
    ) + c.extra@.map_values(|s: String| s@)
}

/// The names the first `n` class patterns expose.
pub open spec fn classes_symbols(cs: Seq<ClassPattern>, n: int) -> Seq<Seq<char>>
    decreases n,
{
    if n <= 0 {
        Seq::empty()
    } else {
        classes_symbols(cs, n - 1) + class_symbols(cs[n - 1])
    }
}

/// Every name the inventory exposes.
pub open spec fn symbols(inv: Inventory) -> Seq<Seq<char>> {
    inv.enums@.map_values(|e: EnumType| e.ffi_name@) + classes_symbols(
        inv.classes@,
        inv.classes@.len() as int,
    ) + inv.functions@.map_values(|f: Function| f.symbol@)
}

/// Whether no name occurs twice.
pub open spec fn all_distinct(s: Seq<Seq<char>>) -> bool {
    forall|i: int, j: int| 0 <= i < j < s.len() ==> s[i] != s[j]
}

/// Some enum has neither a fixed width nor a success sentinel.
pub open spec fn unsupported_enum(inv: Inventory) -> bool {
    exists|k: int|
        0 <= k < inv.enums@.len() && inv.enums@[k].backing is None && !is_error_enum(
            inv.enums@[k],
        )
}

/// Some enum that is not sparse gives two variants one value.
pub open spec fn colliding_enum(inv: Inventory) -> bool {
    exists|k: int|
        0 <= k < inv.enums@.len() && !inv.enums@[k].sparse && has_collision(
            inv.enums@[k].variants@,
        )
}

/// A method is well bound: a fallible one names a conversion, and a named
/// conversion is an error-code pattern of the inventory.
pub open spec fn method_ok(enums: Seq<EnumType>, m: MethodBinding) -> bool {
    &&& m.fallible ==> m.return_conversion is Some
    &&& m.return_conversion matches Some(k) ==> k < enums.len() && is_error_enum(enums[k as int])
}

/// Some method of some class pattern is not well bound.
pub open spec fn missing_conversion(inv: Inventory) -> bool {
    exists|c: int, i: int|
        0 <= c < inv.classes@.len() && 0 <= i < inv.classes@[c].methods@.len() && !method_ok(
            inv.enums@,
            inv.classes@[c].methods@[i],
        )
}

/// Some parameter of some function has a type without a target equivalent.
pub open spec fn unmappable(inv: Inventory) -> bool {
    exists|f: int, i: int|
        0 <= f < inv.functions@.len() && 0 <= i < inv.functions@[f].param_types@.len()
            && primitive_of_name(inv.functions@[f].param_types@[i]@) is None
}

/// The error a pass over `inv` ends with, checked in this order.
pub open spec fn first_error(inv: Inventory) -> Option<GenError> {
    if !all_distinct(symbols(inv)) {
        Some(GenError::DuplicateSymbol)
    } else if unsupported_enum(inv) {
        Some(GenError::UnsupportedEnumRepresentation)
    } else if colliding_enum(inv) {
        Some(GenError::InvalidDiscriminant)
    } else if missing_conversion(inv) {
        Some(GenError::MissingReturnConversion)
    } else if unmappable(inv) {
        Some(GenError::UnmappablePrimitive)
    } else {
        None
    }
}

proof fn lemma_views_push(v: Seq<String>, x: String)
    ensures
        v.push(x).map_values(|s: String| s@) == v.map_values(|s: String| s@).push(x@),
{
    assert(v.push(x).map_values(|s: String| s@) =~= v.map_values(|s: String| s@).push(x@));
}

fn collect_symbols(inv: &Inventory) -> (r: Vec<String>)
    ensures
        r@.map_values(|s: String| s@) == symbols(*inv),
{
    let mut out: Vec<String> = Vec::new();
    let mut k: usize = 0;
    while k < inv.enums.len()
        invariant
            k <= inv.enums@.len(),
            out@.map_values(|s: String| s@) == inv.enums@.subrange(0, k as int).map_values(
                |e: EnumType| e.ffi_name@,
            ),
        decreases inv.enums@.len() - k,
    {
        let ghost prev = out@;
        out.push(inv.enums[k].ffi_name.clone());
        proof { lemma_views_push(prev, out@[k as int]); }
        assert(inv.enums@.subrange(0, k + 1).map_values(|e: EnumType| e.ffi_name@) =~= inv.enums@.subrange(0, k as int).map_values(
            |e: EnumType| e.ffi_name@,
        ).push(inv.enums@[k as int].ffi_name@));
        k = k + 1;
    }
    assert(inv.enums@.subrange(0, k as int) =~= inv.enums@);
    let mut c: usize = 0;
    while c < inv.classes.len()
        invariant
            c <= inv.classes@.len(),
            out@.map_values(|s: String| s@) == inv.enums@.map_values(|e: EnumType| e.ffi_name@)
                + classes_symbols(inv.classes@, c as int),
        decreases inv.classes@.len() - c,
    {
        let cl = &inv.classes[c];
        let ghost base = out@.map_values(|s: String| s@);
        out.push(cl.name.clone());
        out.push(cl.constructor.clone());
        out.push(cl.destructor.clone());
        let ghost mid = out@.map_values(|s: String| s@);
        let mut i: usize = 0;
        while i < cl.methods.len()
            invariant
                i <= cl.methods@.len(),
                out@.map_values(|s: String| s@) == mid + cl.methods@.subrange(0, i as int).map_values(
                    |m: MethodBinding| m.exposed_symbol@,
                ),
            decreases cl.methods@.len() - i,
        {
            let ghost prev = out@;
            out.push(cl.methods[i].exposed_symbol.clone());
            proof {
                lemma_views_push(prev, out@[out@.len() - 1]);
                let a = cl.methods@.subrange(0, i as int).map_values(|m: MethodBinding| m.exposed_symbol@);
                assert(cl.methods@.subrange(0, i + 1).map_values(|m: MethodBinding| m.exposed_symbol@) =~= a.push(cl.methods@[i as int].exposed_symbol@));
                assert((mid + a).push(cl.methods@[i as int].exposed_symbol@) =~= mid + a.push(cl.methods@[i as int].exposed_symbol@));
            }
            i = i + 1;
        }
        assert(cl.methods@.subrange(0, i as int) =~= cl.methods@);
        let ghost mid2 = out@.map_values(|s: String| s@);
        let mut j: usize = 0;
        while j < cl.extra.len()
            invariant
                j <= cl.extra@.len(),
                out@.map_values(|s: String| s@) == mid2 + cl.extra@.subrange(0, j as int).map_values(
                    |s: String| s@,
                ),
            decreases cl.extra@.len() - j,
        {
            let ghost prev = out@;
            out.push(cl.extra[j].clone());
            proof {
                lemma_views_push(prev, out@[out@.len() - 1]);
                let a = cl.extra@.subrange(0, j as int).map_values(|s: String| s@);
                assert(cl.extra@.subrange(0, j + 1).map_values(|s: String| s@) =~= a.push(cl.extra@[j as int]@));
                assert((mid2 + a).push(cl.extra@[j as int]@) =~= mid2 + a.push(cl.extra@[j as int]@));
            }
            j = j + 1;
        }
        assert(cl.extra@.subrange(0, j as int) =~= cl.extra@);
        assert(out@.map_values(|s: String| s@) =~= base + class_symbols(*cl));
        assert(out@.map_values(|s: String| s@) =~= inv.enums@.map_values(
            |e: EnumType| e.ffi_name@,
        ) + classes_symbols(inv.classes@, c + 1));
        c = c + 1;
    }
    let ghost mid3 = out@.map_values(|s: String| s@);
    let mut f: usize = 0;
    while f < inv.functions.len()
        invariant
            f <= inv.functions@.len(),
            out@.map_values(|s: String| s@) == mid3 + inv.functions@.subrange(0, f as int).map_values(
                |x: Function| x.symbol@,
            ),
        decreases inv.functions@.len() - f,
    {
        let ghost prev = out@;
        out.push(inv.functions[f].symbol.clone());
        proof {
            lemma_views_push(prev, out@[out@.len() - 1]);
            let a = inv.functions@.subrange(0, f as int).map_values(|x: Function| x.symbol@);
            assert(inv.functions@.subrange(0, f + 1).map_values(|x: Function| x.symbol@) =~= a.push(inv.functions@[f as int].symbol@));
            assert((mid3 + a).push(inv.functions@[f as int].symbol@) =~= mid3 + a.push(inv.functions@[f as int].symbol@));
        }
        f = f + 1;
    }
    assert(inv.functions@.subrange(0, f as int) =~= inv.functions@);
    assert(out@.map_values(|s: String| s@) =~= symbols(*inv));
    out
}

/// Whether no two of `names` are equal.
pub fn names_distinct(names: &Vec<String>) -> (r: bool)
    ensures
        r == all_distinct(names@.map_values(|s: String| s@)),
{
    let ghost v = names@.map_values(|s: String| s@);
    let mut j: usize = 0;
    while j < names.len()
        invariant
            j <= names@.len(),
            v == names@.map_values(|s: String| s@),
            forall|a: int, b: int| 0 <= a < b < j ==> v[a] != v[b],
        decreases names@.len() - j,
    {
        let mut i: usize = 0;
        while i < j
            invariant
                i <= j < names@.len(),
                v == names@.map_values(|s: String| s@),
                forall|a: int| 0 <= a < i ==> v[a] != v[j as int],
            decreases j - i,
        {
            if names[i] == names[j] {
                assert(v[i as int] == v[j as int]);
                return false;
            }
            i = i + 1;
        }
        j = j + 1;
    }
    true
}

/// Whether `e` designates one of its variants as success sentinel.
pub fn error_enum(e: &EnumType) -> (r: bool)
    ensures
        r == is_error_enum(*e),
{
    match e.success {
        Some(j) => j < e.variants.len(),
        None => false,
    }
}

fn check_enums(inv: &Inventory) -> (r: Option<GenError>)
    ensures
        r == (if unsupported_enum(*inv) {
            Some(GenError::UnsupportedEnumRepresentation)
        } else if colliding_enum(*inv) {
            Some(GenError::InvalidDiscriminant)
        } else {
            None
        }),
{
    let mut k: usize = 0;
    while k < inv.enums.len()
        invariant
            k <= inv.enums@.len(),
            forall|a: int|
                0 <= a < k ==> !(inv.enums@[a].backing is None && !is_error_enum(inv.enums@[a])),
        decreases inv.enums@.len() - k,
    {
        if inv.enums[k].backing.is_none() && !error_enum(&inv.enums[k]) {
            return Some(GenError::UnsupportedEnumRepresentation);
        }
        k = k + 1;
    }
    let mut k: usize = 0;
    while k < inv.enums.len()
        invariant
            k <= inv.enums@.len(),
            !unsupported_enum(*inv),
            forall|a: int|
                0 <= a < k ==> !(!inv.enums@[a].sparse && has_collision(inv.enums@[a].variants@)),
        decreases inv.enums@.len() - k,
    {
        if !inv.enums[k].sparse && find_collision(&inv.enums[k].variants) {
            return Some(GenError::InvalidDiscriminant);
        }
        k = k + 1;
    }
    None
}

/// Whether the method is well bound against `enums`.
pub fn method_bound(enums: &Vec<EnumType>, m: &MethodBinding) -> (r: bool)
    ensures
        r == method_ok(enums@, *m),
{
    match m.return_conversion {
        None => !m.fallible,
        Some(k) => k < enums.len() && error_enum(&enums[k]),
    }
}

fn check_methods(inv: &Inventory) -> (r: bool)
    ensures
        r == missing_conversion(*inv),
{
    let mut c: usize = 0;
    while c < inv.classes.len()
        invariant
            c <= inv.classes@.len(),
            forall|a: int, i: int|
                0 <= a < c && 0 <= i < inv.classes@[a].methods@.len() ==> method_ok(
                    inv.enums@,
                    inv.classes@[a].methods@[i],
                ),
        decreases inv.classes@.len() - c,
    {
        let mut i: usize = 0;
        while i < inv.classes[c].methods.len()
            invariant
                c < inv.classes@.len(),
                i <= inv.classes@[c as int].methods@.len(),
                forall|a: int, i: int|
                    0 <= a < c && 0 <= i < inv.classes@[a].methods@.len() ==> method_ok(
                        inv.enums@,
                        inv.classes@[a].methods@[i],
                    ),
                forall|x: int|
                    0 <= x < i ==> method_ok(inv.enums@, inv.classes@[c as int].methods@[x]),
            decreases inv.classes@[c as int].methods@.len() - i,
        {
            if !method_bound(&inv.enums, &inv.classes[c].methods[i]) {
                return true;
            }
            i = i + 1;
        }
        c = c + 1;
    }
    false
}

fn check_functions(inv: &Inventory) -> (r: bool)
    ensures
        r == unmappable(*inv),
{
    let mut f: usize = 0;
    while f < inv.functions.len()
        invariant
            f <= inv.functions@.len(),
            forall|a: int, i: int|
                0 <= a < f && 0 <= i < inv.functions@[a].param_types@.len()
                    ==> primitive_of_name(inv.functions@[a].param_types@[i]@) is Some,
        decreases inv.functions@.len() - f,
    {
        let mut i: usize = 0;
        while i < inv.functions[f].param_types.len()
            invariant
                f < inv.functions@.len(),
                i <= inv.functions@[f as int].param_types@.len(),
                forall|a: int, i: int|
                    0 <= a < f && 0 <= i < inv.functions@[a].param_types@.len()
                        ==> primitive_of_name(inv.functions@[a].param_types@[i]@) is Some,
                forall|x: int|
                    0 <= x < i ==> primitive_of_name(inv.functions@[f as int].param_types@[x]@) is Some,
            decreases inv.functions@[f as int].param_types@.len() - i,
        {
            if primitive_of_repr(inv.functions[f].param_types[i].as_str()).is_none() {
                return true;
            }
            i = i + 1;
        }
        f = f + 1;
    }
    false
}

/// The first structural fault of `inv`, in the order duplicate names,
/// enum representation, enum values, method conversions, parameter types.
pub fn validate(inv: &Inventory) -> (r: Option<GenError>)
    ensures
        r == first_error(*inv),
{
    let names = collect_symbols(inv);
    if !names_distinct(&names) {
        return Some(GenError::DuplicateSymbol);
    }
    let e = check_enums(inv);
    if e.is_some() {
        return e;
    }
    if check_methods(inv) {
        return Some(GenError::MissingReturnConversion);
    }
    if check_functions(inv) {
        return Some(GenError::UnmappablePrimitive);
    }
    None
}

/// How a call that reports through the error-code pattern `e` ended: the
/// success sentinel is success, any other code is a failure carrying it.
pub fn check_status(e: &EnumType, code: i128) -> (r: Result<(), i128>)
    requires
        is_error_enum(*e),
    ensures
        r is Ok <==> code == success_value(*e),
        r matches Err(c) ==> c == code,
{
    if code == e.variants[e.success.unwrap()].value {
        Ok(())
    } else {
        Err(code)
    }
}

/// Two entities that expose one name make generation fail with
/// `DuplicateSymbol`, before any other check.
pub proof fn lemma_shared_symbol_is_rejected(inv: Inventory, i: int, j: int)
    requires
        0 <= i < j < symbols(inv).len(),
        symbols(inv)[i] == symbols(inv)[j],
    ensures
        first_error(inv) == Some(GenError::DuplicateSymbol),
{
}

/// The backing width named by an enum's `repr` attributes: the first valid
/// name, when it is a fixed width.
pub open spec fn backing_of(repr_names: Seq<String>) -> Option<Primitive> {
    match first_valid_repr(repr_names.map_values(|s: String| s@)) {
        Some(n) => primitive_of_name(n),
        None => None,
    }
}

/// Builds the description of a declared enum: its exported name (`ffi_name`
/// when given, else `name`), its namespace (empty when not given), its
/// backing width from its `repr` names, and its numbered, unhidden variants.
pub fn ffi_enum_type(
    name: &String,
    ffi_name: Option<String>,
    namespace: Option<String>,
    doc: String,
    repr_names: &Vec<String>,
    decls: &Vec<VariantDecl>,
    success: Option<usize>,
) -> (r: EnumType)
    ensures
        r.ffi_name@ == (match ffi_name {
            Some(n) => n@,
            None => name@,
        }),
        r.namespace@ == (match namespace {
            Some(n) => n@,
            None => Seq::<char>::empty(),
        }),
        r.doc == doc,
        r.backing == backing_of(repr_names@),
        variants_view(r.variants@) == emitted(decls@, decls@.len() as int),
        !r.sparse,
        r.success == success,
{
    let backing = match find_valid_repr(repr_names) {
        Some(n) => primitive_of_repr(n.as_str()),
        None => None,
    };
    let ffi_name = match ffi_name {
        Some(n) => n,
        None => name.clone(),
    };
    let namespace = match namespace {
        Some(n) => n,
        None => String::new(),
    };
    EnumType {
        ffi_name,
        variants: assign_variant_values(decls),
        backing,
        doc,
        namespace,
        sparse: false,
        success,
    }
}

} // verus!
