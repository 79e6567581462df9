use crate::config::{Config, DocConfig};
use crate::enums::EnumVariant;
use crate::generate::{
    error_enum, first_error, symbols, is_error_enum, method_ok, success_value, validate, ClassPattern,
    EnumType, Function, GenError, Inventory, MethodBinding,
};
use crate::naming::{render, to_naming_style, PythonNamingStyle};
use vstd::prelude::*;

verus! {

/// The decimal digit `d`.
pub open spec fn digit(d: int) -> Seq<char> {
    if d == 0 {
        "0"@
    } else if d == 1 {
        "1"@
    } else if d == 2 {
        "2"@
    } else if d == 3 {
        "3"@
    } else if d == 4 {
        "4"@
    } else if d == 5 {
        "5"@
    } else if d == 6 {
        "6"@
    } else if d == 7 {
        "7"@
    } else if d == 8 {
        "8"@
    } else {
        "9"@
    }
}

/// `n` written in decimal, without leading zeros.
pub open spec fn decimal_nat(n: nat) -> Seq<char>
    decreases n,
{
    if n < 10 {
        digit(n as int)
    } else {
        decimal_nat(n / 10) + digit((n % 10) as int)
    }
}

/// `n` written in decimal, with a leading `-` when negative.
pub open spec fn decimal(n: int) -> Seq<char> {
    if n < 0 {
        "-"@ + decimal_nat((-n) as nat)
    } else {
        decimal_nat(n as nat)
    }
}

/// A comment line holding `doc`, indented by `indent`; nothing for an empty
/// documentation.
pub open spec fn doc_comment(indent: Seq<char>, doc: Seq<char>) -> Seq<char> {
    if doc.len() == 0 {
        Seq::empty()
    } else {
        indent + "# "@ + doc + "\n"@
    }
}

/// The lines that declare one variant: its documentation, then its value.
pub open spec fn variant_line(v: EnumVariant, style: PythonNamingStyle) -> Seq<char> {
    doc_comment("    "@, v.doc@) + "    "@ + render(v.name@, style) + " = "@ + decimal(
        v.value as int,
    ) + "\n"@
}

/// The lines of the first `n` variants.
pub open spec fn variants_text(vs: Seq<EnumVariant>, style: PythonNamingStyle, n: int) -> Seq<char>
    decreases n,
{
    if n <= 0 {
        Seq::empty()
    } else {
        variants_text(vs, style, n - 1) + variant_line(vs[n - 1], style)
    }
}

/// The sentinel constant of an error-code pattern; nothing for another enum.
pub open spec fn success_line(e: EnumType) -> Seq<char> {
    if is_error_enum(e) {
        "    SUCCESS = "@ + decimal(success_value(e)) + "\n"@
    } else {
        Seq::empty()
    }
}

/// The declaration of one enum.
pub open spec fn enum_text(e: EnumType, style: PythonNamingStyle) -> Seq<char> {
    doc_comment(""@, e.doc@) + "class "@ + e.ffi_name@ + ":\n"@ + variants_text(e.variants@, style, e.variants@.len() as int)
        + success_line(e)
}

/// The declarations of the first `n` enums.
pub open spec fn enums_text(es: Seq<EnumType>, style: PythonNamingStyle, n: int) -> Seq<char>
    decreases n,
{
    if n <= 0 {
        Seq::empty()
    } else {
        enums_text(es, style, n - 1) + enum_text(es[n - 1], style)
    }
}

/// The success sentinel a method's result is checked against, if it has a
/// conversion.
pub open spec fn method_sentinel(enums: Seq<EnumType>, m: MethodBinding) -> Option<int> {
    match m.return_conversion {
        Some(k) => Some(success_value(enums[k as int])),
        None => None,
    }
}

/// The opening of a method wrapper, which refuses a destroyed handle.
pub open spec fn method_head(m: MethodBinding) -> Seq<char> {
    "    def "@ + m.method_name@
        + "(self, *args):\n        if self._ctx is None:\n            raise Exception(\"handle destroyed\")\n"@
}

/// The call of a method wrapper: the result is passed through, or checked
/// against the sentinel and raised with its code when it differs.
pub open spec fn method_call(m: MethodBinding, raw: Seq<char>, sentinel: Option<int>) -> Seq<char> {
    match sentinel {
        None => "        return "@ + raw + "."@ + m.exposed_symbol@ + "(self._ctx, *args)\n"@,
        Some(s) => "        rval = "@ + raw + "."@ + m.exposed_symbol@
            + "(self._ctx, *args)\n        if rval != "@ + decimal(s)
            + ":\n            raise Exception(rval)\n"@,
    }
}

/// One method wrapper.
pub open spec fn method_text(enums: Seq<EnumType>, m: MethodBinding, raw: Seq<char>) -> Seq<char> {
    method_head(m) + method_call(m, raw, method_sentinel(enums, m))
}

/// The wrappers of the first `n` methods.
pub open spec fn methods_text(
    enums: Seq<EnumType>,
    ms: Seq<MethodBinding>,
    raw: Seq<char>,
    n: int,
) -> Seq<char>
    decreases n,
{
    if n <= 0 {
        Seq::empty()
    } else {
        methods_text(enums, ms, raw, n - 1) + method_text(enums, ms[n - 1], raw)
    }
}

/// A free function that forwards to the raw namespace.
pub open spec fn free_fn_text(sym: Seq<char>, raw: Seq<char>) -> Seq<char> {
    "def "@ + sym + "(*args):\n    return "@ + raw + "."@ + sym + "(*args)\n"@
}

/// The free functions of the first `n` symbols.
pub open spec fn free_fns_text(syms: Seq<Seq<char>>, raw: Seq<char>, n: int) -> Seq<char>
    decreases n,
{
    if n <= 0 {
        Seq::empty()
    } else {
        free_fns_text(syms, raw, n - 1) + free_fn_text(syms[n - 1], raw)
    }
}

/// The class wrapping a handle: constructor, destructor, bound methods, then
/// the extra symbols as free functions.
pub open spec fn class_text(enums: Seq<EnumType>, c: ClassPattern, raw: Seq<char>) -> Seq<char> {
    "class "@ + c.name@ + ":\n    def __init__(self):\n        self._ctx = "@ + raw + "."@
        + c.constructor@ + "()\n    def destroy(self):\n        "@ + raw + "."@ + c.destructor@
        + "(self._ctx)\n        self._ctx = None\n"@ + methods_text(
        enums,
        c.methods@,
        raw,
        c.methods@.len() as int,
    ) + free_fns_text(c.extra@.map_values(|s: String| s@), raw, c.extra@.len() as int)
}

/// The classes of the first `n` class patterns.
pub open spec fn classes_text(
    enums: Seq<EnumType>,
    cs: Seq<ClassPattern>,
    raw: Seq<char>,
    n: int,
) -> Seq<char>
    decreases n,
{
    if n <= 0 {
        Seq::empty()
    } else {
        classes_text(enums, cs, raw, n - 1) + class_text(enums, cs[n - 1], raw)
    }
}

/// The whole generated text: the preamble, the enums, the classes and the
/// plain functions, each in inventory order.
pub open spec fn output_text(inv: Inventory, cfg: Config, doc: DocConfig) -> Seq<char> {
    doc.header@ + enums_text(inv.enums@, cfg.enum_variant_naming, inv.enums@.len() as int)
        + classes_text(inv.enums@, inv.classes@, cfg.raw_fn_namespace@, inv.classes@.len() as int)
        + free_fns_text(
        inv.functions@.map_values(|f: Function| f.symbol@),
        cfg.raw_fn_namespace@,
        inv.functions@.len() as int,
    )
}

fn digit_str(d: u128) -> (r: &'static str)
    requires
        d < 10,
    ensures
        r@ == digit(d as int),
{
    if d == 0 {
        "0"
    } else if d == 1 {
        "1"
    } else if d == 2 {
        "2"
    } else if d == 3 {
        "3"
    } else if d == 4 {
        "4"
    } else if d == 5 {
        "5"
    } else if d == 6 {
        "6"
    } else if d == 7 {
        "7"
    } else if d == 8 {
        "8"
    } else {
        "9"
    }
}

fn decimal_nat_text(n: u128) -> (r: String)
    ensures
        r@ == decimal_nat(n as nat),
    decreases n,
{
    if n < 10 {
        String::from_str(digit_str(n))
    } else {
        let mut s = decimal_nat_text(n / 10);
        s.append(digit_str(n % 10));
        s
    }
}

/// Writes `n` in decimal.
pub fn decimal_text(n: i128) -> (r: String)
    ensures
        r@ == decimal(n as int),
{
    if n < 0 {
        let m: u128 = ((-(n + 1)) as u128) + 1;
        let t = decimal_nat_text(m);
        String::from_str("-").concat(t.as_str())
    } else {
        decimal_nat_text(n as u128)
    }
}

fn emit_doc_comment(indent: &str, doc: &String) -> (r: String)
    ensures
        r@ == doc_comment(indent@, doc@),
{
    if doc.unicode_len() == 0 {
        String::new()
    } else {
        let mut out = String::from_str(indent);
        out.append("# ");
        out.append(doc.as_str());
        out.append("\n");
        out
    }
}

fn emit_enum(e: &EnumType, style: &PythonNamingStyle) -> (r: String)
    ensures
        r@ == enum_text(*e, *style),
{
    let mut body = String::new();
    let mut i: usize = 0;
    while i < e.variants.len()
        invariant
            i <= e.variants@.len(),
            body@ == variants_text(e.variants@, *style, i as int),
        decreases e.variants@.len() - i,
    {
        let v = &e.variants[i];
        let mut line = emit_doc_comment("    ", &v.doc);
        line.append("    ");
        let name = to_naming_style(v.name.as_str(), style);
        line.append(name.as_str());
        line.append(" = ");
        let num = decimal_text(v.value);
        line.append(num.as_str());
        line.append("\n");
        body.append(line.as_str());
        i = i + 1;
    }
    let mut out = emit_doc_comment("", &e.doc);
    out.append("class ");
    out.append(e.ffi_name.as_str());
    out.append(":\n");
    out.append(body.as_str());
    if error_enum(e) {
        let mut line = String::from_str("    SUCCESS = ");
        let num = decimal_text(e.variants[e.success.unwrap()].value);
        line.append(num.as_str());
        line.append("\n");
        out.append(line.as_str());
    } else {
        assert(out@ + Seq::<char>::empty() =~= out@);
    }
    out
}

fn emit_method(enums: &Vec<EnumType>, m: &MethodBinding, raw: &str) -> (r: String)
    requires
        method_ok(enums@, *m),
    ensures
        r@ == method_text(enums@, *m, raw@),
{
    let mut out = String::from_str("    def ");
    out.append(m.method_name.as_str());
    out.append(
        "(self, *args):\n        if self._ctx is None:\n            raise Exception(\"handle destroyed\")\n",
    );
    let call = match m.return_conversion {
        None => {
            let mut t = String::from_str("        return ");
            t.append(raw);
            t.append(".");
            t.append(m.exposed_symbol.as_str());
            t.append("(self._ctx, *args)\n");
            t
        },
        Some(k) => {
            let e = &enums[k];
            let num = decimal_text(e.variants[e.success.unwrap()].value);
            let mut t = String::from_str("        rval = ");
            t.append(raw);
            t.append(".");
            t.append(m.exposed_symbol.as_str());
            t.append("(self._ctx, *args)\n        if rval != ");
            t.append(num.as_str());
            t.append(":\n            raise Exception(rval)\n");
            t
        },
    };
    out.append(call.as_str());
    out
}

fn emit_free_fn(sym: &str, raw: &str) -> (r: String)
    ensures
        r@ == free_fn_text(sym@, raw@),
{
    let mut out = String::from_str("def ");
    out.append(sym);
    out.append("(*args):\n    return ");
    out.append(raw);
    out.append(".");
    out.append(sym);
    out.append("(*args)\n");
    out
}

fn emit_class(enums: &Vec<EnumType>, c: &ClassPattern, raw: &str) -> (r: String)
    requires
        forall|i: int| 0 <= i < c.methods@.len() ==> method_ok(enums@, #[trigger] c.methods@[i]),
    ensures
        r@ == class_text(enums@, *c, raw@),
{
    let mut methods = String::new();
    let mut i: usize = 0;
    while i < c.methods.len()
        invariant
            i <= c.methods@.len(),
            forall|i: int| 0 <= i < c.methods@.len() ==> method_ok(enums@, #[trigger] c.methods@[i]),
            methods@ == methods_text(enums@, c.methods@, raw@, i as int),
        decreases c.methods@.len() - i,
    {
        let t = emit_method(enums, &c.methods[i], raw);
        methods.append(t.as_str());
        i = i + 1;
    }
    let ghost syms = c.extra@.map_values(|s: String| s@);
    let mut extra = String::new();
    let mut j: usize = 0;
    while j < c.extra.len()
        invariant
            j <= c.extra@.len(),
            syms == c.extra@.map_values(|s: String| s@),
            extra@ == free_fns_text(syms, raw@, j as int),
        decreases c.extra@.len() - j,
    {
        let t = emit_free_fn(c.extra[j].as_str(), raw);
        extra.append(t.as_str());
        j = j + 1;
    }
    let mut out = String::from_str("class ");
    out.append(c.name.as_str());
    out.append(":\n    def __init__(self):\n        self._ctx = ");
    out.append(raw);
    out.append(".");
    out.append(c.constructor.as_str());
    out.append("()\n    def destroy(self):\n        ");
    out.append(raw);
    out.append(".");
    out.append(c.destructor.as_str());
    out.append("(self._ctx)\n        self._ctx = None\n");
    out.append(methods.as_str());
    out.append(extra.as_str());
    out
}

/// Projects `inv` onto Python source text, or reports the first structural
/// fault of `inv` without emitting anything.
pub fn generate(inv: &Inventory, cfg: &Config, doc: &DocConfig) -> (r: Result<String, GenError>)
    ensures
        first_error(*inv) matches Some(e) ==> r == Err::<String, GenError>(e),
        first_error(*inv) is None ==> (r matches Ok(t) && t@ == output_text(*inv, *cfg, *doc)),
{
    match validate(inv) {
        Some(e) => {
            return Err(e);
        },
        None => {},
    }
    let raw = cfg.raw_fn_namespace.as_str();
    let mut enums = String::new();
    let mut k: usize = 0;
    while k < inv.enums.len()
        invariant
            k <= inv.enums@.len(),
            enums@ == enums_text(inv.enums@, cfg.enum_variant_naming, k as int),
        decreases inv.enums@.len() - k,
    {
        let t = emit_enum(&inv.enums[k], &cfg.enum_variant_naming);
        enums.append(t.as_str());
        k = k + 1;
    }
    let mut classes = String::new();
    let mut c: usize = 0;
    while c < inv.classes.len()
        invariant
            c <= inv.classes@.len(),
            first_error(*inv) is None,
            raw@ == cfg.raw_fn_namespace@,
            classes@ == classes_text(inv.enums@, inv.classes@, raw@, c as int),
        decreases inv.classes@.len() - c,
    {
        let t = emit_class(&inv.enums, &inv.classes[c], raw);
        classes.append(t.as_str());
        c = c + 1;
    }
    let ghost syms = inv.functions@.map_values(|f: Function| f.symbol@);
    let mut fns = String::new();
    let mut f: usize = 0;
    while f < inv.functions.len()
        invariant
            f <= inv.functions@.len(),
            syms == inv.functions@.map_values(|f: Function| f.symbol@),
            raw@ == cfg.raw_fn_namespace@,
            fns@ == free_fns_text(syms, raw@, f as int),
        decreases inv.functions@.len() - f,
    {
        let t = emit_free_fn(inv.functions[f].symbol.as_str(), raw);
        fns.append(t.as_str());
        f = f + 1;
    }
    let mut out = String::from_str(doc.header.as_str());
    out.append(enums.as_str());
    out.append(classes.as_str());
    out.append(fns.as_str());
    Ok(out)
}

/// Generation over an inventory without enums, classes or functions
/// succeeds and yields the preamble alone.
pub proof fn lemma_empty_inventory_gives_preamble(inv: Inventory, cfg: Config, doc: DocConfig)
    requires
        inv.enums@.len() == 0,
        inv.classes@.len() == 0,
        inv.functions@.len() == 0,
    ensures
        first_error(inv) is None,
        output_text(inv, cfg, doc) == doc.header@,
{
    assert(symbols(inv) =~= Seq::<Seq<char>>::empty());
    assert(doc.header@ + Seq::<char>::empty() + Seq::<char>::empty() + Seq::<char>::empty()
        =~= doc.header@);
}

} // verus!
