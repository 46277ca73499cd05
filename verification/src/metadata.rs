//! The metadata synthesizer: validate the attribute list handed to the
//! `module_info` rule — three required string parameters `name`,
//! `module_type` and `use_container_cmds` — and assemble the JSON-fragment
//! text that the generated `PlugInfo` entry point returns. The fragment is
//! spliced by hand, without escaping, exactly as the generator emits it.

use vstd::prelude::*;
use vstd::string::*;

verus! {


/// The literal handed as an attribute value: a string literal, or a literal
/// of any other kind (a number, a boolean, ...), which the rule rejects.
pub enum AttrLit {
    Str(String),
    Other,
}

/// One argument of the attribute list: a `key = <literal>` pair whose key is
/// a plain identifier, or anything else, which the rule rejects as malformed.
pub enum AttrArg {
    KeyValue(String, AttrLit),
    Malformed,
}

/// The three parameters of the metadata rule, once collected.
#[derive(Debug, PartialEq, Eq)]
pub struct ModuleInfo {
    pub name: String,
    pub module_type: String,
    pub use_container_cmds: String,
}

/// Why the metadata rule rejected its attribute list.
#[derive(Debug, PartialEq, Eq)]
pub enum MetaError {
    /// A `key = <literal>` pair whose key is none of the three parameters.
    UnknownKey(String),
    /// A value that is not a string literal.
    NonStringValue,
    /// An argument that is not a `key = <literal>` pair with a plain
    /// identifier as its key.
    MalformedArg,
    /// One of the three parameters was never supplied.
    MissingParam,
}

/// The keys the metadata rule understands.
pub open spec fn known_key(k: Seq<char>) -> bool {
    k == "name"@ || k == "module_type"@ || k == "use_container_cmds"@
}

/// An argument the rule accepts: a known key with a string-literal value.
pub open spec fn arg_accepted(a: AttrArg) -> bool {
    a matches AttrArg::KeyValue(k, lit) && known_key(k@) && lit is Str
}

/// Whether every argument of the list is accepted.
pub open spec fn all_accepted(args: Seq<AttrArg>) -> bool {
    forall|i: int| 0 <= i < args.len() ==> arg_accepted(#[trigger] args[i])
}

/// The value the rule keeps for `key`: the string literal of the last
/// `key = "..."` pair of the list, a later pair overwriting an earlier one.
pub open spec fn last_value(args: Seq<AttrArg>, key: Seq<char>) -> Option<Seq<char>>
    decreases args.len(),
{
    if args.len() == 0 {
        None
    } else {
        match args.last() {
            AttrArg::KeyValue(k, AttrLit::Str(s)) => if k@ == key {
                Some(s@)
            } else {
                last_value(args.drop_last(), key)
            },
            _ => last_value(args.drop_last(), key),
        }
    }
}

/// The argument the rule stops at: the first one it does not accept.
pub open spec fn rejected_at(args: Seq<AttrArg>, i: int) -> bool {
    &&& 0 <= i < args.len()
    &&& !arg_accepted(args[i])
    &&& forall|k: int| 0 <= k < i ==> arg_accepted(#[trigger] args[k])
}

/// The error owed to a rejected argument: a malformed pair, an unknown key,
/// or a known key whose value is not a string literal, in that order of
/// inspection.
pub open spec fn fault_of(r: Result<ModuleInfo, MetaError>, a: AttrArg) -> bool {
    match a {
        AttrArg::Malformed => r == Result::<ModuleInfo, MetaError>::Err(MetaError::MalformedArg),
        AttrArg::KeyValue(k, lit) => if !known_key(k@) {
            r matches Err(e) && e matches MetaError::UnknownKey(k2) && k2@ == k@
        } else {
            r == Result::<ModuleInfo, MetaError>::Err(MetaError::NonStringValue)
        },
    }
}

/// The string carried by a string literal; any other literal kind is
/// rejected.
pub fn get_lit_string(lit: &AttrLit) -> (r: Result<String, MetaError>)
    ensures
        r is Ok <==> lit is Str,
        r matches Ok(s) ==> (lit matches AttrLit::Str(s0) && s == s0),
        r is Err ==> r == Result::<String, MetaError>::Err(MetaError::NonStringValue),
{
    match lit {
        AttrLit::Str(s) => Ok(s.clone()),
        AttrLit::Other => Err(MetaError::NonStringValue),
    }
}

fn key_is(k: &String, lit: &str) -> (r: bool)
    ensures
        r == (k@ == lit@),
{
    *k == lit.to_owned()
}

pub open spec fn opt_view(v: Option<String>) -> Option<Seq<char>> {
    match v {
        Some(s) => Some(s@),
        None => None,
    }
}

proof fn lemma_last_value_step(args: Seq<AttrArg>, i: int, key: Seq<char>)
    requires
        0 <= i < args.len(),
    ensures
        (match args[i] {
            AttrArg::KeyValue(k, AttrLit::Str(s)) => last_value(args.take(i + 1), key) == (if k@
                == key {
                Some(s@)
            } else {
                last_value(args.take(i), key)
            }),
            _ => last_value(args.take(i + 1), key) == last_value(args.take(i), key),
        }),
{
    assert(args.take(i + 1).drop_last() =~= args.take(i));
    assert(args.take(i + 1).last() == args[i]);
}

/// Walks the attribute list of the metadata rule and collects its three
/// parameters. The first argument that is malformed, carries an unknown key,
/// or carries a non-string literal is reported and nothing is collected; a
/// list that never supplies one of the three parameters is rejected too.
pub fn module_info(args: &Vec<AttrArg>) -> (r: Result<ModuleInfo, MetaError>)
    ensures
        r is Ok <==> (all_accepted(args@) && last_value(args@, "name"@) is Some && last_value(
            args@,
            "module_type"@,
        ) is Some && last_value(args@, "use_container_cmds"@) is Some),
        r matches Ok(info) ==> ({
            &&& last_value(args@, "name"@) == Some(info.name@)
            &&& last_value(args@, "module_type"@) == Some(info.module_type@)
            &&& last_value(args@, "use_container_cmds"@) == Some(info.use_container_cmds@)
        }),
        forall|i: int| #[trigger] rejected_at(args@, i) ==> fault_of(r, args@[i]),
        all_accepted(args@) && r is Err ==> r == Result::<ModuleInfo, MetaError>::Err(
            MetaError::MissingParam,
        ),
{
    let mut name_val: Option<String> = None;
    let mut type_val: Option<String> = None;
    let mut cmds_val: Option<String> = None;
    let mut idx: usize = 0;
    while idx < args.len()
        invariant
            idx <= args@.len(),
            forall|k: int| 0 <= k < idx ==> arg_accepted(#[trigger] args@[k]),
            opt_view(name_val) == last_value(args@.take(idx as int), "name"@),
            opt_view(type_val) == last_value(args@.take(idx as int), "module_type"@),
            opt_view(cmds_val) == last_value(args@.take(idx as int), "use_container_cmds"@),
        decreases args@.len() - idx,
    {
        match &args[idx] {
            AttrArg::KeyValue(k, lit) => {
                proof {
                    reveal_strlit("name");
                    reveal_strlit("module_type");
                    reveal_strlit("use_container_cmds");
                    assert("name"@.len() == 4);
                    assert("module_type"@.len() == 11);
                    assert("use_container_cmds"@.len() == 18);
                    assert("name"@ != "module_type"@ && "name"@ != "use_container_cmds"@
                        && "module_type"@ != "use_container_cmds"@);
                    lemma_last_value_step(args@, idx as int, "name"@);
                    lemma_last_value_step(args@, idx as int, "module_type"@);
                    lemma_last_value_step(args@, idx as int, "use_container_cmds"@);
                }
                if key_is(k, "name") {
                    match get_lit_string(lit) {
                        Ok(s) => name_val = Some(s),
                        Err(e) => {
                            proof {
                                assert(!arg_accepted(args@[idx as int]));
                            }
                            return Err(e);
                        },
                    }
                } else if key_is(k, "module_type") {
                    match get_lit_string(lit) {
                        Ok(s) => type_val = Some(s),
                        Err(e) => {
                            proof {
                                assert(!arg_accepted(args@[idx as int]));
                            }
                            return Err(e);
                        },
                    }
                } else if key_is(k, "use_container_cmds") {
                    match get_lit_string(lit) {
                        Ok(s) => cmds_val = Some(s),
                        Err(e) => {
                            proof {
                                assert(!arg_accepted(args@[idx as int]));
                            }
                            return Err(e);
                        },
                    }
                } else {
                    proof {
                        assert(!arg_accepted(args@[idx as int]));
                    }
                    return Err(MetaError::UnknownKey(k.clone()));
                }
            },
            AttrArg::Malformed => {
                proof {
                    assert(!arg_accepted(args@[idx as int]));
                }
                return Err(MetaError::MalformedArg);
            },
        }
        idx = idx + 1;
    }
    proof {
        assert(args@.take(idx as int) =~= args@);
    }
    match (name_val, type_val, cmds_val) {
        (Some(name), Some(module_type), Some(use_container_cmds)) => Ok(
            ModuleInfo { name, module_type, use_container_cmds },
        ),
        _ => Err(MetaError::MissingParam),
    }
}

/// The JSON-fragment text the generated `PlugInfo` entry point returns: the
/// three collected values spliced between fixed pieces, the first two inside
/// quotes and the last one bare, with no escaping of any of them.
pub open spec fn metadata_string(
    name: Seq<char>,
    module_type: Seq<char>,
    use_container_cmds: Seq<char>,
) -> Seq<char> {
    "\"Name\":\""@ + name + "\",\"Type\":\""@ + module_type + "\",\"Usecontainercmds\":"@
        + use_container_cmds
}

/// Assembles the metadata reply of the generated `PlugInfo` entry point,
/// byte for byte.
pub fn plug_info_string(info: &ModuleInfo) -> (r: String)
    ensures
        r@ == metadata_string(info.name@, info.module_type@, info.use_container_cmds@),
{
    let mut out = String::from_str("\"Name\":\"");
    out.append(info.name.as_str());
    out.append("\",\"Type\":\"");
    out.append(info.module_type.as_str());
    out.append("\",\"Usecontainercmds\":");
    out.append(info.use_container_cmds.as_str());
    out
}

} // verus!
