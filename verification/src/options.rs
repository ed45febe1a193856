//! The options that the operator attributes take:
//! `init = "..."`, `destroy = "..."`, `decode = "..."`, `encode = "..."` and
//! `wit = "path/to/graph"`.
use crate::operator::OperatorInput;
use crate::syntax::{attr_args_view, AttrArg, AttrArgV};
use vstd::prelude::*;

verus! {

/// The value of the last `key = "value"` argument, if there is one.
pub open spec fn last_value(args: Seq<AttrArgV>, key: Seq<char>) -> Option<Seq<char>>
    decreases args.len(),
{
    if args.len() == 0 {
        None
    } else {
        match args.last() {
            AttrArgV::NameValue(Some(name), Some(value)) => if name == key {
                Some(value)
            } else {
                last_value(args.drop_last(), key)
            },
            _ => last_value(args.drop_last(), key),
        }
    }
}

/// The options as plain values.
pub struct OptionsV {
    pub init: Option<Seq<char>>,
    pub destroy: Option<Seq<char>>,
    pub decode: Option<Seq<char>>,
    pub encode: Option<Seq<char>>,
    pub wit_path: Seq<char>,
}

/// The options that a list of arguments sets: for each key the last string
/// value given to it; the WIT path is `default_wit` unless `wit` is given.
pub open spec fn options_of(args: Seq<AttrArgV>, default_wit: Seq<char>) -> OptionsV {
    OptionsV {
        init: last_value(args, "init"@),
        destroy: last_value(args, "destroy"@),
        decode: last_value(args, "decode"@),
        encode: last_value(args, "encode"@),
        wit_path: match last_value(args, "wit"@) {
            Some(p) => p,
            None => default_wit,
        },
    }
}

/// The options of an operator attribute.
pub struct Options {
    /// A function `init(buffer) -> Result<_, String>` to call on load.
    pub init: Option<String>,
    /// A function `destroy()` to call on unload.
    pub destroy: Option<String>,
    /// A function `decode(&DataModel) -> Input` that decodes the input.
    pub decode: Option<String>,
    /// A function `encode(DataModel, Output) -> DataModel` that encodes the output.
    pub encode: Option<String>,
    /// The WIT graph directory.
    pub wit_path: String,
}

pub open spec fn opt_view(o: Option<String>) -> Option<Seq<char>> {
    match o {
        Some(s) => Some(s@),
        None => None,
    }
}

impl View for Options {
    type V = OptionsV;

    open spec fn view(&self) -> OptionsV {
        OptionsV {
            init: opt_view(self.init),
            destroy: opt_view(self.destroy),
            decode: opt_view(self.decode),
            encode: opt_view(self.encode),
            wit_path: self.wit_path@,
        }
    }
}

proof fn lemma_last_value_step(args: Seq<AttrArgV>, i: int, key: Seq<char>)
    requires
        0 <= i < args.len(),
    ensures
        last_value(args.take(i + 1), key) == match args[i] {
            AttrArgV::NameValue(Some(name), Some(value)) => if name == key {
                Some(value)
            } else {
                last_value(args.take(i), key)
            },
            _ => last_value(args.take(i), key),
        },
{
    assert(args.take(i + 1).drop_last() =~= args.take(i));
    assert(args.take(i + 1).last() == args[i]);
}

/// Reads the options from the arguments of an operator attribute: for each
/// key the last `key = "value"` with a string value wins. The values are taken
/// as written; `first_invalid_ident` tells which of them make no identifier.
pub fn get_options(args: &Vec<AttrArg>, _op: &OperatorInput, default_wit: &str) -> (r: Options)
    ensures
        r@ == options_of(attr_args_view(args@), default_wit@),
{
    let ghost argv = attr_args_view(args@);
    let key_init = "init".to_owned();
    let key_destroy = "destroy".to_owned();
    let key_encode = "encode".to_owned();
    let key_decode = "decode".to_owned();
    let key_wit = "wit".to_owned();
    let mut init: Option<String> = None;
    let mut destroy: Option<String> = None;
    let mut encode: Option<String> = None;
    let mut decode: Option<String> = None;
    let mut wit: Option<String> = None;
    let mut i: usize = 0;
    assert(argv.take(0) =~= Seq::<AttrArgV>::empty());
    while i < args.len()
        invariant
            i <= args@.len(),
            argv == attr_args_view(args@),
            argv.len() == args@.len(),
            key_init@ == "init"@,
            key_destroy@ == "destroy"@,
            key_encode@ == "encode"@,
            key_decode@ == "decode"@,
            key_wit@ == "wit"@,
            opt_view(init) == last_value(argv.take(i as int), "init"@),
            opt_view(destroy) == last_value(argv.take(i as int), "destroy"@),
            opt_view(encode) == last_value(argv.take(i as int), "encode"@),
            opt_view(decode) == last_value(argv.take(i as int), "decode"@),
            opt_view(wit) == last_value(argv.take(i as int), "wit"@),
        decreases args@.len() - i,
    {
        proof {
            lemma_last_value_step(argv, i as int, "init"@);
            lemma_last_value_step(argv, i as int, "destroy"@);
            lemma_last_value_step(argv, i as int, "encode"@);
            lemma_last_value_step(argv, i as int, "decode"@);
            lemma_last_value_step(argv, i as int, "wit"@);
        }
        assert(argv[i as int] == args@[i as int]@);
        match &args[i] {
            AttrArg::NameValue(Some(name), Some(value)) => {
                if *name == key_init {
                    init = Some(value.clone());
                }
                if *name == key_destroy {
                    destroy = Some(value.clone());
                }
                if *name == key_encode {
                    encode = Some(value.clone());
                }
                if *name == key_decode {
                    decode = Some(value.clone());
                }
                if *name == key_wit {
                    wit = Some(value.clone());
                }
            },
            _ => {},
        }
        i = i + 1;
    }
    assert(argv.take(args@.len() as int) =~= argv);
    let wit_path = match wit {
        Some(p) => p,
        None => default_wit.to_owned(),
    };
    Options { init, destroy, decode, encode, wit_path }
}

// ---------------------------------------------------------------------------
// Laws

/// The last `key = "value"` wins: appending one sets the key's option to
/// that value, whatever came before.
pub proof fn law_last_option_wins(args: Seq<AttrArgV>, key: Seq<char>, value: Seq<char>)
    ensures
        last_value(args.push(AttrArgV::NameValue(Some(key), Some(value))), key) == Some(value),
{
    assert(args.push(AttrArgV::NameValue(Some(key), Some(value))).last() == AttrArgV::NameValue(
        Some(key),
        Some(value),
    ));
}

/// An argument for another key, or one that is not `key = "string"`, leaves
/// the key's option as it was.
pub proof fn law_other_arguments_leave_option(args: Seq<AttrArgV>, arg: AttrArgV, key: Seq<char>)
    requires
        !(arg matches AttrArgV::NameValue(Some(name), Some(_)) && name == key),
    ensures
        last_value(args.push(arg), key) == last_value(args, key),
{
    assert(args.push(arg).drop_last() =~= args);
}

/// The WIT path is the default exactly when no `wit = "..."` is given.
pub proof fn law_wit_path_default(args: Seq<AttrArgV>, default_wit: Seq<char>)
    ensures
        last_value(args, "wit"@) is None ==> options_of(args, default_wit).wit_path == default_wit,
        last_value(args, "wit"@) matches Some(p) ==> options_of(args, default_wit).wit_path == p,
{
}

} // verus!
