use interoptopus_core::class_generated::{Error, FFIError, SimpleClass};
use interoptopus_core::config::{Config, DocConfig};
use interoptopus_core::emit::{decimal_text, generate};
use interoptopus_core::enums::{EnumVariant, Primitive, VariantDecl};
use interoptopus_core::generate::{
    check_status, ffi_enum_type, validate, ClassPattern, EnumType, Function, GenError, Inventory,
    MethodBinding,
};
use interoptopus_core::naming::PythonNamingStyle;

fn variant(name: &str, value: i128) -> EnumVariant {
    EnumVariant { name: name.to_string(), value, doc: String::new() }
}

fn error_enum() -> EnumType {
    EnumType {
        ffi_name: "FFIError".to_string(),
        variants: vec![variant("Ok", 0), variant("Fail", 300)],
        backing: None,
        doc: String::new(),
        namespace: String::new(),
        sparse: false,
        success: Some(0),
    }
}

fn method(sym: &str, name: &str, fallible: bool, conv: Option<usize>) -> MethodBinding {
    MethodBinding {
        exposed_symbol: sym.to_string(),
        method_name: name.to_string(),
        takes_mut_self: false,
        fallible,
        return_conversion: conv,
    }
}

fn class(methods: Vec<MethodBinding>, extra: Vec<String>) -> ClassPattern {
    ClassPattern {
        name: "SimpleClass".to_string(),
        constructor: "simple_class_create".to_string(),
        destructor: "simple_class_destroy".to_string(),
        methods,
        extra,
    }
}

fn empty() -> Inventory {
    Inventory { enums: Vec::new(), classes: Vec::new(), functions: Vec::new() }
}

fn doc(h: &str) -> DocConfig {
    DocConfig { header: h.to_string() }
}

#[test]
fn empty_inventory_yields_preamble() {
    let r = generate(&empty(), &Config::default(), &doc("# generated bindings\n"));
    assert_eq!(r, Ok("# generated bindings\n".to_string()));
    assert_eq!(generate(&empty(), &Config::default(), &DocConfig::default()), Ok(String::new()));
}

#[test]
fn class_pattern_emits_all_wrappers() {
    let mut inv = empty();
    inv.enums.push(error_enum());
    inv.classes.push(class(
        vec![
            method("simple_class_result", "method_result", true, Some(0)),
            method("simple_class_value", "method_value", false, None),
        ],
        vec!["simple_class_extra_method".to_string()],
    ));
    let text = generate(&inv, &Config::default(), &doc("")).unwrap();
    let expected = [
        "class FFIError:\n",
        "    Ok = 0\n",
        "    Fail = 300\n",
        "    SUCCESS = 0\n",
        "class SimpleClass:\n",
        "    def __init__(self):\n",
        "        self._ctx = api.simple_class_create()\n",
        "    def destroy(self):\n",
        "        api.simple_class_destroy(self._ctx)\n",
        "        self._ctx = None\n",
        "    def method_result(self, *args):\n",
        "        if self._ctx is None:\n",
        "            raise Exception(\"handle destroyed\")\n",
        "        rval = api.simple_class_result(self._ctx, *args)\n",
        "        if rval != 0:\n",
        "            raise Exception(rval)\n",
        "    def method_value(self, *args):\n",
        "        if self._ctx is None:\n",
        "            raise Exception(\"handle destroyed\")\n",
        "        return api.simple_class_value(self._ctx, *args)\n",
        "def simple_class_extra_method(*args):\n",
        "    return api.simple_class_extra_method(*args)\n",
    ]
    .concat();
    assert_eq!(text, expected);
}

#[test]
fn variant_names_follow_configured_style() {
    let mut inv = empty();
    inv.enums.push(EnumType {
        ffi_name: "Color".to_string(),
        variants: vec![variant("DarkRed", 0), variant("LightBlue", -7)],
        backing: Some(Primitive::I8),
        doc: String::new(),
        namespace: String::new(),
        sparse: false,
        success: None,
    });
    let mut cfg = Config::default();
    cfg.enum_variant_naming = PythonNamingStyle::ShoutySnakeCase;
    let text = generate(&inv, &cfg, &doc("")).unwrap();
    assert_eq!(text, "class Color:\n    DARK_RED = 0\n    LIGHT_BLUE = -7\n");
}

#[test]
fn plain_functions_are_forwarded() {
    let mut inv = empty();
    inv.functions.push(Function { symbol: "add".to_string(), param_types: vec!["u32".to_string(), "i64".to_string()] });
    let mut cfg = Config::default();
    cfg.raw_fn_namespace = "raw".to_string();
    let text = generate(&inv, &cfg, &doc("#\n")).unwrap();
    assert_eq!(text, "#\ndef add(*args):\n    return raw.add(*args)\n");
}

#[test]
fn shared_symbol_is_rejected() {
    let mut inv = empty();
    inv.classes.push(class(vec![method("simple_class_create", "m", false, None)], Vec::new()));
    assert_eq!(generate(&inv, &Config::default(), &doc("header")), Err(GenError::DuplicateSymbol));
    let mut inv = empty();
    inv.enums.push(error_enum());
    inv.functions.push(Function { symbol: "FFIError".to_string(), param_types: Vec::new() });
    assert_eq!(validate(&inv), Some(GenError::DuplicateSymbol));
}

#[test]
fn duplicate_wins_over_other_faults() {
    let mut inv = empty();
    let mut e = error_enum();
    e.success = None;
    inv.enums.push(e);
    inv.functions.push(Function { symbol: "FFIError".to_string(), param_types: vec!["f32".to_string()] });
    assert_eq!(validate(&inv), Some(GenError::DuplicateSymbol));
}

#[test]
fn enum_without_backing_is_rejected() {
    let mut inv = empty();
    let mut e = error_enum();
    e.success = None;
    inv.enums.push(e);
    assert_eq!(generate(&inv, &Config::default(), &doc("")), Err(GenError::UnsupportedEnumRepresentation));
    let mut inv = empty();
    let mut e = error_enum();
    e.success = Some(2);
    inv.enums.push(e);
    assert_eq!(validate(&inv), Some(GenError::UnsupportedEnumRepresentation));
}

#[test]
fn colliding_values_are_rejected_unless_sparse() {
    let mut inv = empty();
    let mut e = error_enum();
    e.variants.push(variant("Other", 300));
    inv.enums.push(e);
    assert_eq!(validate(&inv), Some(GenError::InvalidDiscriminant));
    inv.enums[0].sparse = true;
    assert_eq!(validate(&inv), None);
}

#[test]
fn fallible_method_needs_conversion() {
    let mut inv = empty();
    inv.classes.push(class(vec![method("s_result", "r", true, None)], Vec::new()));
    assert_eq!(generate(&inv, &Config::default(), &doc("")), Err(GenError::MissingReturnConversion));
    let mut inv = empty();
    inv.enums.push(EnumType {
        ffi_name: "Plain".to_string(),
        variants: vec![variant("A", 0)],
        backing: Some(Primitive::U8),
        doc: String::new(),
        namespace: String::new(),
        sparse: false,
        success: None,
    });
    inv.classes.push(class(vec![method("s_result", "r", true, Some(0))], Vec::new()));
    assert_eq!(validate(&inv), Some(GenError::MissingReturnConversion));
    inv.classes[0].methods[0].return_conversion = Some(5);
    assert_eq!(validate(&inv), Some(GenError::MissingReturnConversion));
}

#[test]
fn unknown_parameter_type_is_rejected() {
    let mut inv = empty();
    inv.functions.push(Function { symbol: "f".to_string(), param_types: vec!["u8".to_string(), "f64".to_string()] });
    assert_eq!(generate(&inv, &Config::default(), &doc("")), Err(GenError::UnmappablePrimitive));
}

#[test]
fn success_code_is_not_a_failure() {
    let e = error_enum();
    assert_eq!(check_status(&e, 0), Ok(()));
    assert_eq!(check_status(&e, 300), Err(300));
    assert_eq!(check_status(&e, -1), Err(-1));
    let mut e = error_enum();
    e.success = Some(1);
    assert_eq!(check_status(&e, 300), Ok(()));
    assert_eq!(check_status(&e, 0), Err(0));
}

#[test]
fn decimal_rendering() {
    assert_eq!(decimal_text(0), "0");
    assert_eq!(decimal_text(7), "7");
    assert_eq!(decimal_text(-305), "-305");
    assert_eq!(decimal_text(i128::MAX), i128::MAX.to_string());
    assert_eq!(decimal_text(i128::MIN), i128::MIN.to_string());
}

#[test]
fn enum_description_from_declaration() {
    let decls = vec![
        VariantDecl { name: "A".to_string(), explicit: None, skip: false, doc: "first".to_string() },
        VariantDecl { name: "B".to_string(), explicit: None, skip: true, doc: String::new() },
        VariantDecl { name: "C".to_string(), explicit: None, skip: false, doc: String::new() },
    ];
    let reprs = vec!["u16".to_string()];
    let e = ffi_enum_type(&"Mode".to_string(), None, None, String::new(), &reprs, &decls, None);
    assert_eq!(e.ffi_name, "Mode");
    assert_eq!(e.namespace, "");
    assert_eq!(e.backing, Some(Primitive::U16));
    assert_eq!(e.variants.len(), 2);
    assert_eq!((e.variants[0].name.as_str(), e.variants[0].value, e.variants[0].doc.as_str()), ("A", 0, "first"));
    assert_eq!((e.variants[1].name.as_str(), e.variants[1].value), ("C", 2));
    let reprs = vec!["C".to_string()];
    let e = ffi_enum_type(&"Mode".to_string(), Some("MyMode".to_string()), Some("ns".to_string()), String::new(), &reprs, &decls, Some(0));
    assert_eq!(e.ffi_name, "MyMode");
    assert_eq!(e.namespace, "ns");
    assert_eq!(e.backing, None);
    assert_eq!(e.success, Some(0));
}

#[test]
fn simple_class_methods() {
    let mut c = SimpleClass::default();
    assert_eq!(c.method_result(3), Ok(()));
    assert_eq!(c.method_value(42), 42);
    assert_eq!(c.method_mut_self(7), 7);
    assert_eq!(c.some_value, 0);
}

#[test]
fn status_code_from_result() {
    assert_eq!(FFIError::from(Ok(())), FFIError::Success);
    assert_eq!(FFIError::from(Err(Error::Bad)), FFIError::Fail);
}

#[test]
fn documentation_becomes_comments() {
    let mut inv = empty();
    inv.enums.push(EnumType {
        ffi_name: "Mode".to_string(),
        variants: vec![
            EnumVariant { name: "Fast".to_string(), value: 0, doc: "Runs quickly.".to_string() },
            variant("Slow", 1),
        ],
        backing: Some(Primitive::U32),
        doc: "How to run.".to_string(),
        namespace: String::new(),
        sparse: false,
        success: None,
    });
    let text = generate(&inv, &Config::default(), &doc("")).unwrap();
    assert_eq!(text, "# How to run.\nclass Mode:\n    # Runs quickly.\n    Fast = 0\n    Slow = 1\n");
}
