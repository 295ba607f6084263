//! What a label declaration decides: which options it was given, which
//! identifier it gets, and what the implementation of `Label` for the new type
//! holds.
use vstd::prelude::*;
use vstd::string::StringExecFns;
use crate::uid::{generate_uint, uint_bits, UidCounter};

verus! {

/// The kinds of option that a label declaration takes.
#[derive(Debug, Clone, Copy, PartialEq, Eq, Structural)]
pub enum MetaKey {
    /// `name`: the display name of the label.
    Name,
    /// `type` or `assoc_type`: the type of the values that the label names.
    Type,
    /// `crate`: the path under which this library is found.
    Crate,
}

/// The message for an option key that is none of the accepted ones.
pub open spec fn unknown_key_message() -> Seq<char> {
    "expected type, assoc_type, crate, or name"@
}

/// The kind of option that `key` names, if it names one.
pub open spec fn meta_key_spec(key: Seq<char>) -> Option<MetaKey> {
    if key == "name"@ {
        Some(MetaKey::Name)
    } else if key == "crate"@ {
        Some(MetaKey::Crate)
    } else if key == "type"@ || key == "assoc_type"@ {
        Some(MetaKey::Type)
    } else {
        None
    }
}

/// Whether two string slices hold the same characters.
fn same_text(a: &str, b: &str) -> (same: bool)
    ensures
        same == (a@ == b@),
{
    String::from_str(a) == String::from_str(b)
}

/// Tells which kind of option a key names. A key that names none is an error,
/// whose message lists the accepted keys.
pub fn meta_key(key: &str) -> (kind: Result<MetaKey, String>)
    ensures
        match kind {
            Ok(k) => meta_key_spec(key@) == Some(k),
            Err(message) => meta_key_spec(key@).is_none() && message@ == unknown_key_message(),
        },
{
    proof {
        reveal_strlit("name");
        reveal_strlit("crate");
        reveal_strlit("type");
        reveal_strlit("assoc_type");
        assert("name"@[0] != "type"@[0]);
    }
    if same_text(key, "name") {
        Ok(MetaKey::Name)
    } else if same_text(key, "crate") {
        Ok(MetaKey::Crate)
    } else if same_text(key, "type") || same_text(key, "assoc_type") {
        Ok(MetaKey::Type)
    } else {
        Err(String::from_str("expected type, assoc_type, crate, or name"))
    }
}

/// One option of a label declaration, with what was written for it. What the
/// three kinds of option hold is left to the caller: this library only hands it
/// on.
pub enum LabelMeta<Name, Type, Path> {
    /// A display name in place of the name of the declared type.
    CustomName(Name),
    /// The type of the values that the label names.
    AssocType(Type),
    /// The path under which this library is found.
    CratePath(Path),
}

/// The options of a label declaration, one of each kind at most.
pub struct LabelOptions<Name, Type, Path> {
    /// The display name, where one was given.
    pub name: Option<Name>,
    /// The type of the values that the label names, where one was given.
    pub assoc_type: Option<Type>,
    /// The path under which this library is found, where one was given.
    pub crate_path: Option<Path>,
}

/// The display name that the last option of that kind gives, if there is one.
pub open spec fn last_name<Name, Type, Path>(metas: Seq<LabelMeta<Name, Type, Path>>) -> Option<
    Name,
>
    decreases metas.len(),
{
    if metas.len() == 0 {
        None
    } else {
        match metas.last() {
            LabelMeta::CustomName(name) => Some(name),
            _ => last_name(metas.drop_last()),
        }
    }
}

/// The associated type that the last option of that kind gives, if there is
/// one.
pub open spec fn last_assoc_type<Name, Type, Path>(
    metas: Seq<LabelMeta<Name, Type, Path>>,
) -> Option<Type>
    decreases metas.len(),
{
    if metas.len() == 0 {
        None
    } else {
        match metas.last() {
            LabelMeta::AssocType(ty) => Some(ty),
            _ => last_assoc_type(metas.drop_last()),
        }
    }
}

/// The crate path that the last option of that kind gives, if there is one.
pub open spec fn last_crate_path<Name, Type, Path>(
    metas: Seq<LabelMeta<Name, Type, Path>>,
) -> Option<Path>
    decreases metas.len(),
{
    if metas.len() == 0 {
        None
    } else {
        match metas.last() {
            LabelMeta::CratePath(path) => Some(path),
            _ => last_crate_path(metas.drop_last()),
        }
    }
}

impl<Name, Type, Path> LabelOptions<Name, Type, Path> {
    /// Gathers the options of a declaration. Where an option is given more than
    /// once, the last one counts.
    pub fn parse(metas: Vec<LabelMeta<Name, Type, Path>>) -> (opts: Self)
        ensures
            opts.name == last_name(metas@),
            opts.assoc_type == last_assoc_type(metas@),
            opts.crate_path == last_crate_path(metas@),
    {
        let mut opts = LabelOptions { name: None, assoc_type: None, crate_path: None };
        let mut rest = metas;
        proof {
            assert(rest@ =~= metas@.take(rest@.len() as int));
        }
        while rest.len() > 0
            invariant
                rest@.len() <= metas@.len(),
                rest@ == metas@.take(rest@.len() as int),
                opts.name.is_some() ==> opts.name == last_name(metas@),
                opts.name.is_none() ==> last_name(metas@) == last_name(rest@),
                opts.assoc_type.is_some() ==> opts.assoc_type == last_assoc_type(metas@),
                opts.assoc_type.is_none() ==> last_assoc_type(metas@) == last_assoc_type(rest@),
                opts.crate_path.is_some() ==> opts.crate_path == last_crate_path(metas@),
                opts.crate_path.is_none() ==> last_crate_path(metas@) == last_crate_path(rest@),
            decreases rest@.len(),
        {
            let ghost before = rest@;
            let meta = rest.pop().unwrap();
            proof {
                assert(rest@ =~= before.drop_last());
                assert(meta == before.last());
                assert(rest@ =~= metas@.take(rest@.len() as int));
            }
            match meta {
                LabelMeta::CustomName(name) => {
                    if opts.name.is_none() {
                        opts.name = Some(name);
                    }
                },
                LabelMeta::AssocType(ty) => {
                    if opts.assoc_type.is_none() {
                        opts.assoc_type = Some(ty);
                    }
                },
                LabelMeta::CratePath(path) => {
                    if opts.crate_path.is_none() {
                        opts.crate_path = Some(path);
                    }
                },
            }
        }
        opts
    }
}

/// The display name of a declared label.
pub enum NameStr<Name> {
    /// The name that the declaration gives.
    Custom(Name),
    /// The name of the declared type itself.
    Stringify(String),
}

/// The type of the values that a declared label names.
pub enum AssocTypeDef<Type> {
    /// The type that the declaration gives.
    Given(Type),
    /// The unit type, for a declaration that gives none.
    Unit,
}

/// How the implementation of a declared label refers to this library.
pub enum UseLhlist<Path> {
    /// Under the path that the declaration gives.
    Path(Path),
    /// As an outside crate under its own name.
    ExternCrate,
}

/// What the implementation of `Label` for a declared type holds.
pub struct LabelImpl<Name, Type, Path> {
    /// The name of the declared type.
    pub name: String,
    /// The label's display name.
    pub name_str: NameStr<Name>,
    /// The label's identifier.
    pub id: usize,
    /// The bits of the identifier as a type-level numeral, most significant
    /// first.
    pub id_ty: Vec<bool>,
    /// The type of the values that the label names.
    pub assoc_type: AssocTypeDef<Type>,
    /// The name of the constant that holds the implementation.
    pub dummy_const: String,
    /// How the implementation refers to this library.
    pub use_lhlist: UseLhlist<Path>,
}

/// The name of the constant that holds the implementation of `Label` for the
/// type `name`.
pub open spec fn dummy_const_name(name: Seq<char>) -> Seq<char> {
    "_IMPL_LABEL_FOR_"@ + name
}

/// Whether `out` is the implementation for the type `name`, declared with the
/// options `opts`, under the identifier `id`.
pub open spec fn is_label_impl<Name, Type, Path>(
    out: LabelImpl<Name, Type, Path>,
    opts: LabelOptions<Name, Type, Path>,
    name: Seq<char>,
    id: usize,
) -> bool {
    &&& out.name@ == name
    &&& match opts.name {
        Some(custom) => out.name_str == NameStr::<Name>::Custom(custom),
        None => out.name_str matches NameStr::Stringify(own) && own@ == name,
    }
    &&& out.id == id
    &&& out.id_ty@ == uint_bits(id as nat)
    &&& match opts.assoc_type {
        Some(ty) => out.assoc_type == AssocTypeDef::<Type>::Given(ty),
        None => out.assoc_type == AssocTypeDef::<Type>::Unit,
    }
    &&& out.dummy_const@ == dummy_const_name(name)
    &&& match opts.crate_path {
        Some(path) => out.use_lhlist == UseLhlist::<Path>::Path(path),
        None => out.use_lhlist == UseLhlist::<Path>::ExternCrate,
    }
}

/// Works out the implementation of `Label` for the declared type `name`, with
/// the next identifier of `counter`. There is none once the counter has given
/// out its last identifier.
pub fn impl_label<Name, Type, Path>(
    label_options: LabelOptions<Name, Type, Path>,
    name: &str,
    counter: &mut UidCounter,
) -> (out: Option<LabelImpl<Name, Type, Path>>)
    ensures
        old(counter).issued() < usize::MAX ==> out.is_some() && is_label_impl(
            out.unwrap(),
            label_options,
            name@,
            old(counter).issued() as usize,
        ) && final(counter).issued() == old(counter).issued() + 1,
        old(counter).issued() >= usize::MAX ==> out.is_none() && final(counter).issued() == old(
            counter,
        ).issued(),
{
    // unique identifier
    let id = match counter.mint() {
        Some(id) => id,
        None => {
            return None;
        },
    };
    let id_ty = generate_uint(id);

    // string name (for identification)
    let name_str = match label_options.name {
        Some(cust_name) => NameStr::Custom(cust_name),
        None => NameStr::Stringify(String::from_str(name)),
    };

    // associated type
    let assoc_type = match label_options.assoc_type {
        Some(ty) => AssocTypeDef::Given(ty),
        None => AssocTypeDef::Unit,
    };

    let dummy_const = String::from_str("_IMPL_LABEL_FOR_").concat(name);
    let use_lhlist = match label_options.crate_path {
        Some(path) => UseLhlist::Path(path),
        None => UseLhlist::ExternCrate,
    };

    Some(
        LabelImpl {
            name: String::from_str(name),
            name_str,
            id,
            id_ty,
            assoc_type,
            dummy_const,
            use_lhlist,
        },
    )
}

/// Declares a label: gathers the options `attr` of the declaration of the type
/// `item` and works out the implementation of `Label` for it, with the next
/// identifier of `counter`.
pub fn label<Name, Type, Path>(
    attr: Vec<LabelMeta<Name, Type, Path>>,
    item: &str,
    counter: &mut UidCounter,
) -> (out: Option<LabelImpl<Name, Type, Path>>)
    ensures
        old(counter).issued() < usize::MAX ==> out.is_some() && is_label_impl(
            out.unwrap(),
            (LabelOptions {
                name: last_name(attr@),
                assoc_type: last_assoc_type(attr@),
                crate_path: last_crate_path(attr@),
            }),
            item@,
            old(counter).issued() as usize,
        ) && final(counter).issued() == old(counter).issued() + 1,
        old(counter).issued() >= usize::MAX ==> out.is_none() && final(counter).issued() == old(
            counter,
        ).issued(),
{
    let label_options = LabelOptions::parse(attr);
    impl_label(label_options, item, counter)
}

} // verus!
