use vib_macros::metadata::{
    get_lit_string, module_info, plug_info_string, AttrArg, AttrLit, MetaError, ModuleInfo,
};

fn pair(key: &str, value: &str) -> AttrArg {
    AttrArg::KeyValue(key.to_string(), AttrLit::Str(value.to_string()))
}

fn full_args() -> Vec<AttrArg> {
    vec![
        pair("name", "Foo"),
        pair("module_type", "Bar"),
        pair("use_container_cmds", "true"),
    ]
}

#[test]
fn metadata_exact_output() {
    let info = module_info(&full_args()).unwrap();
    assert_eq!(
        plug_info_string(&info),
        "\"Name\":\"Foo\",\"Type\":\"Bar\",\"Usecontainercmds\":true"
    );
}

#[test]
fn metadata_collects_all_three_values() {
    let info = module_info(&full_args()).unwrap();
    assert_eq!(
        info,
        ModuleInfo {
            name: "Foo".to_string(),
            module_type: "Bar".to_string(),
            use_container_cmds: "true".to_string(),
        }
    );
}

#[test]
fn metadata_parameter_order_does_not_matter() {
    let args = vec![
        pair("use_container_cmds", "false"),
        pair("name", "N"),
        pair("module_type", "T"),
    ];
    let info = module_info(&args).unwrap();
    assert_eq!(
        plug_info_string(&info),
        "\"Name\":\"N\",\"Type\":\"T\",\"Usecontainercmds\":false"
    );
}

#[test]
fn unknown_key_is_rejected() {
    let mut args = full_args();
    args.push(pair("flavour", "salty"));
    assert_eq!(
        module_info(&args).unwrap_err(),
        MetaError::UnknownKey("flavour".to_string())
    );
}

#[test]
fn non_string_literal_is_rejected() {
    let args = vec![
        AttrArg::KeyValue("name".to_string(), AttrLit::Other),
        pair("module_type", "Bar"),
        pair("use_container_cmds", "true"),
    ];
    assert_eq!(module_info(&args).unwrap_err(), MetaError::NonStringValue);
}

#[test]
fn malformed_argument_is_rejected() {
    let args = vec![pair("name", "Foo"), AttrArg::Malformed];
    assert_eq!(module_info(&args).unwrap_err(), MetaError::MalformedArg);
}

#[test]
fn first_offending_argument_decides_the_error() {
    let args = vec![pair("colour", "red"), AttrArg::Malformed];
    assert_eq!(
        module_info(&args).unwrap_err(),
        MetaError::UnknownKey("colour".to_string())
    );
}

#[test]
fn missing_parameter_is_rejected() {
    let args = vec![pair("name", "Foo"), pair("module_type", "Bar")];
    assert_eq!(module_info(&args).unwrap_err(), MetaError::MissingParam);
    let empty: Vec<AttrArg> = vec![];
    assert_eq!(module_info(&empty).unwrap_err(), MetaError::MissingParam);
}

#[test]
fn later_value_overwrites_earlier_one() {
    let mut args = full_args();
    args.push(pair("name", "Overwritten"));
    let info = module_info(&args).unwrap();
    assert_eq!(info.name, "Overwritten");
    assert_eq!(info.module_type, "Bar");
}

#[test]
fn values_are_spliced_without_escaping() {
    let args = vec![
        pair("name", "F\"oo"),
        pair("module_type", "Ba\\r"),
        pair("use_container_cmds", "true"),
    ];
    let info = module_info(&args).unwrap();
    assert_eq!(
        plug_info_string(&info),
        "\"Name\":\"F\"oo\",\"Type\":\"Ba\\r\",\"Usecontainercmds\":true"
    );
}

#[test]
fn lit_string_extraction() {
    assert_eq!(
        get_lit_string(&AttrLit::Str("hi".to_string())).unwrap(),
        "hi"
    );
    assert_eq!(
        get_lit_string(&AttrLit::Other).unwrap_err(),
        MetaError::NonStringValue
    );
}
