use vstd::prelude::*;
use vstd::string::*;
use vstd::std_specs::cmp::PartialEqSpecImpl;
use vstd::std_specs::convert::FromSpecImpl;
use crate::error::Error;
use crate::strings::{starts_with, str_eq};

verus! {

/// Kinds of metamethods that a userdata type can override.
///
/// The garbage-collection hook cannot be overridden through this type: a host type that needs
/// cleanup has its own destructor.
///
/// A metamethod is identified by its name: two metamethods are equal exactly when their names
/// are, whichever variant spells the name.
#[derive(Debug, Clone)]
pub enum MetaMethod {
    /// The `+` operator.
    Add,
    /// The `-` operator.
    Sub,
    /// The `*` operator.
    Mul,
    /// The `/` operator.
    Div,
    /// The `%` operator.
    Mod,
    /// The `^` operator.
    Pow,
    /// The unary minus (`-`) operator.
    Unm,
    /// The floor division (`//`) operator.
    IDiv,
    /// The bitwise AND (`&`) operator.
    BAnd,
    /// The bitwise OR (`|`) operator.
    BOr,
    /// The bitwise XOR (binary `~`) operator.
    BXor,
    /// The bitwise NOT (unary `~`) operator.
    BNot,
    /// The bitwise left shift (`<<`) operator.
    Shl,
    /// The bitwise right shift (`>>`) operator.
    Shr,
    /// The string concatenation operator `..`.
    Concat,
    /// The length operator `#`.
    Len,
    /// The `==` operator.
    Eq,
    /// The `<` operator.
    Lt,
    /// The `<=` operator.
    Le,
    /// Index access `obj[key]`.
    Index,
    /// Index write access `obj[key] = value`.
    NewIndex,
    /// The call "operator" `obj(arg1, args2, ...)`.
    Call,
    /// The `__tostring` metamethod, called to convert the object to a string.
    ToString,
    /// The `__pairs` metamethod, called by the built-in `pairs` function.
    Pairs,
    /// The `__ipairs` metamethod, called by the built-in `ipairs` function.
    IPairs,
    /// The `__close` metamethod, run when a to-be-closed variable goes out of scope.
    Close,
    /// A custom metamethod.
    ///
    /// Must not be in the protected list: `__gc`, `__metatable`, `__mlua*`.
    Custom(String),
}

/// Whether `name` is the name of one of the operator metamethods.
pub open spec fn is_operator_name(name: Seq<char>) -> bool {
    ||| name == "__add"@
    ||| name == "__sub"@
    ||| name == "__mul"@
    ||| name == "__div"@
    ||| name == "__mod"@
    ||| name == "__pow"@
    ||| name == "__unm"@
    ||| name == "__idiv"@
    ||| name == "__band"@
    ||| name == "__bor"@
    ||| name == "__bxor"@
    ||| name == "__bnot"@
    ||| name == "__shl"@
    ||| name == "__shr"@
    ||| name == "__concat"@
    ||| name == "__len"@
    ||| name == "__eq"@
    ||| name == "__lt"@
    ||| name == "__le"@
    ||| name == "__index"@
    ||| name == "__newindex"@
    ||| name == "__call"@
    ||| name == "__tostring"@
    ||| name == "__pairs"@
    ||| name == "__ipairs"@
    ||| name == "__close"@
}

/// Whether `name` is protected: the garbage-collection hook, the metatable guard, or a name
/// with the prefix reserved for internal use.
pub open spec fn is_protected_name(name: Seq<char>) -> bool {
    ||| name == "__gc"@
    ||| name == "__metatable"@
    ||| "__mlua"@.is_prefix_of(name)
}

/// Whether a metamethod read from `name` is rejected by validation: the name is protected and
/// spells no operator.
pub open spec fn is_restricted_name(name: Seq<char>) -> bool {
    !is_operator_name(name) && is_protected_name(name)
}

/// Whether the runtime caches what `name` resolves to, so that the entry may not be replaced
/// once the type is registered.
pub open spec fn is_cached_name(name: Seq<char>) -> bool {
    name == "__index"@ || name == "__newindex"@
}

impl View for MetaMethod {
    type V = Seq<char>;

    /// A metamethod is seen as its name.
    open spec fn view(&self) -> Seq<char> {
        match self {
            MetaMethod::Add => "__add"@,
            MetaMethod::Sub => "__sub"@,
            MetaMethod::Mul => "__mul"@,
            MetaMethod::Div => "__div"@,
            MetaMethod::Mod => "__mod"@,
            MetaMethod::Pow => "__pow"@,
            MetaMethod::Unm => "__unm"@,
            MetaMethod::IDiv => "__idiv"@,
            MetaMethod::BAnd => "__band"@,
            MetaMethod::BOr => "__bor"@,
            MetaMethod::BXor => "__bxor"@,
            MetaMethod::BNot => "__bnot"@,
            MetaMethod::Shl => "__shl"@,
            MetaMethod::Shr => "__shr"@,
            MetaMethod::Concat => "__concat"@,
            MetaMethod::Len => "__len"@,
            MetaMethod::Eq => "__eq"@,
            MetaMethod::Lt => "__lt"@,
            MetaMethod::Le => "__le"@,
            MetaMethod::Index => "__index"@,
            MetaMethod::NewIndex => "__newindex"@,
            MetaMethod::Call => "__call"@,
            MetaMethod::ToString => "__tostring"@,
            MetaMethod::Pairs => "__pairs"@,
            MetaMethod::IPairs => "__ipairs"@,
            MetaMethod::Close => "__close"@,
            MetaMethod::Custom(name) => name@,
        }
    }
}

impl MetaMethod {
    /// Whether the metamethod is written as a custom name.
    pub open spec fn is_custom(&self) -> bool {
        self is Custom
    }

    /// Whether validation rejects the metamethod: it is a custom name that is protected.
    pub open spec fn is_restricted(&self) -> bool {
        self.is_custom() && is_protected_name(self@)
    }

    /// Returns the name of the metamethod, usually prefixed by two underscores.
    pub fn name(&self) -> (r: &str)
        ensures
            r@ == self@,
    {
        match self {
            MetaMethod::Add => "__add",
            MetaMethod::Sub => "__sub",
            MetaMethod::Mul => "__mul",
            MetaMethod::Div => "__div",
            MetaMethod::Mod => "__mod",
            MetaMethod::Pow => "__pow",
            MetaMethod::Unm => "__unm",
            MetaMethod::IDiv => "__idiv",
            MetaMethod::BAnd => "__band",
            MetaMethod::BOr => "__bor",
            MetaMethod::BXor => "__bxor",
            MetaMethod::BNot => "__bnot",
            MetaMethod::Shl => "__shl",
            MetaMethod::Shr => "__shr",
            MetaMethod::Concat => "__concat",
            MetaMethod::Len => "__len",
            MetaMethod::Eq => "__eq",
            MetaMethod::Lt => "__lt",
            MetaMethod::Le => "__le",
            MetaMethod::Index => "__index",
            MetaMethod::NewIndex => "__newindex",
            MetaMethod::Call => "__call",
            MetaMethod::ToString => "__tostring",
            MetaMethod::Pairs => "__pairs",
            MetaMethod::IPairs => "__ipairs",
            MetaMethod::Close => "__close",
            MetaMethod::Custom(name) => name.as_str(),
        }
    }

    /// Rejects the protected names, and hands every other metamethod back unchanged.
    ///
    /// Only a custom name can be protected: `__gc`, `__metatable`, and every name that begins
    /// with `__mlua`. The error carries the rejected name.
    pub fn validate(self) -> (r: Result<MetaMethod, Error>)
        ensures
            self.is_restricted() ==> r == Err::<MetaMethod, Error>(
                Error::MetaMethodRestricted(self->Custom_0),
            ),
            !self.is_restricted() ==> r == Ok::<MetaMethod, Error>(self),
    {
        match self {
            MetaMethod::Custom(name) => {
                if str_eq(name.as_str(), "__gc") || str_eq(name.as_str(), "__metatable")
                    || starts_with(name.as_str(), "__mlua") {
                    Err(Error::MetaMethodRestricted(name))
                } else {
                    Ok(MetaMethod::Custom(name))
                }
            },
            other => Ok(other),
        }
    }

    /// Whether the runtime caches what the metamethod resolves to.
    pub fn is_cached(&self) -> (r: bool)
        ensures
            r == is_cached_name(self@),
    {
        let name = self.name();
        str_eq(name, "__index") || str_eq(name, "__newindex")
    }
}

/// The operator metamethod that `name` spells, if it spells one.
pub open spec fn operator_named(name: Seq<char>) -> Option<MetaMethod> {
    if name == "__add"@ {
        Some(MetaMethod::Add)
    } else if name == "__sub"@ {
        Some(MetaMethod::Sub)
    } else if name == "__mul"@ {
        Some(MetaMethod::Mul)
    } else if name == "__div"@ {
        Some(MetaMethod::Div)
    } else if name == "__mod"@ {
        Some(MetaMethod::Mod)
    } else if name == "__pow"@ {
        Some(MetaMethod::Pow)
    } else if name == "__unm"@ {
        Some(MetaMethod::Unm)
    } else if name == "__idiv"@ {
        Some(MetaMethod::IDiv)
    } else if name == "__band"@ {
        Some(MetaMethod::BAnd)
    } else if name == "__bor"@ {
        Some(MetaMethod::BOr)
    } else if name == "__bxor"@ {
        Some(MetaMethod::BXor)
    } else if name == "__bnot"@ {
        Some(MetaMethod::BNot)
    } else if name == "__shl"@ {
        Some(MetaMethod::Shl)
    } else if name == "__shr"@ {
        Some(MetaMethod::Shr)
    } else if name == "__concat"@ {
        Some(MetaMethod::Concat)
    } else if name == "__len"@ {
        Some(MetaMethod::Len)
    } else if name == "__eq"@ {
        Some(MetaMethod::Eq)
    } else if name == "__lt"@ {
        Some(MetaMethod::Lt)
    } else if name == "__le"@ {
        Some(MetaMethod::Le)
    } else if name == "__index"@ {
        Some(MetaMethod::Index)
    } else if name == "__newindex"@ {
        Some(MetaMethod::NewIndex)
    } else if name == "__call"@ {
        Some(MetaMethod::Call)
    } else if name == "__tostring"@ {
        Some(MetaMethod::ToString)
    } else if name == "__pairs"@ {
        Some(MetaMethod::Pairs)
    } else if name == "__ipairs"@ {
        Some(MetaMethod::IPairs)
    } else if name == "__close"@ {
        Some(MetaMethod::Close)
    } else {
        None
    }
}

/// Finds the operator metamethod that `name` spells.
pub fn operator_for(name: &str) -> (r: Option<MetaMethod>)
    ensures
        r == operator_named(name@),
{
    if str_eq(name, "__add") {
        Some(MetaMethod::Add)
    } else if str_eq(name, "__sub") {
        Some(MetaMethod::Sub)
    } else if str_eq(name, "__mul") {
        Some(MetaMethod::Mul)
    } else if str_eq(name, "__div") {
        Some(MetaMethod::Div)
    } else if str_eq(name, "__mod") {
        Some(MetaMethod::Mod)
    } else if str_eq(name, "__pow") {
        Some(MetaMethod::Pow)
    } else if str_eq(name, "__unm") {
        Some(MetaMethod::Unm)
    } else if str_eq(name, "__idiv") {
        Some(MetaMethod::IDiv)
    } else if str_eq(name, "__band") {
        Some(MetaMethod::BAnd)
    } else if str_eq(name, "__bor") {
        Some(MetaMethod::BOr)
    } else if str_eq(name, "__bxor") {
        Some(MetaMethod::BXor)
    } else if str_eq(name, "__bnot") {
        Some(MetaMethod::BNot)
    } else if str_eq(name, "__shl") {
        Some(MetaMethod::Shl)
    } else if str_eq(name, "__shr") {
        Some(MetaMethod::Shr)
    } else if str_eq(name, "__concat") {
        Some(MetaMethod::Concat)
    } else if str_eq(name, "__len") {
        Some(MetaMethod::Len)
    } else if str_eq(name, "__eq") {
        Some(MetaMethod::Eq)
    } else if str_eq(name, "__lt") {
        Some(MetaMethod::Lt)
    } else if str_eq(name, "__le") {
        Some(MetaMethod::Le)
    } else if str_eq(name, "__index") {
        Some(MetaMethod::Index)
    } else if str_eq(name, "__newindex") {
        Some(MetaMethod::NewIndex)
    } else if str_eq(name, "__call") {
        Some(MetaMethod::Call)
    } else if str_eq(name, "__tostring") {
        Some(MetaMethod::ToString)
    } else if str_eq(name, "__pairs") {
        Some(MetaMethod::Pairs)
    } else if str_eq(name, "__ipairs") {
        Some(MetaMethod::IPairs)
    } else if str_eq(name, "__close") {
        Some(MetaMethod::Close)
    } else {
        None
    }
}

/// Tests whether a metamethod read from `name` is rejected by validation.
pub fn name_is_restricted(name: &str) -> (r: bool)
    ensures
        r == is_restricted_name(name@),
{
    proof {
        lemma_operator_named(name@);
    }
    operator_for(name).is_none() && (str_eq(name, "__gc") || str_eq(name, "__metatable")
        || starts_with(name, "__mlua"))
}

/// The metamethod that a name stands for: the operator it spells, or else the custom
/// metamethod of that name.
pub open spec fn metamethod_named(name: String) -> MetaMethod {
    match operator_named(name@) {
        Some(m) => m,
        None => MetaMethod::Custom(name),
    }
}

/// A name is the name of an operator exactly when some operator is found for it, and the
/// operator found is spelled by that name.
pub proof fn lemma_operator_named(name: Seq<char>)
    ensures
        operator_named(name).is_some() == is_operator_name(name),
        operator_named(name) matches Some(m) ==> m@ == name && !m.is_custom(),
{
}

/// Reading a metamethod from a name keeps the name, and yields a custom metamethod exactly
/// for the names that spell no operator.
pub proof fn lemma_metamethod_named(name: String)
    ensures
        metamethod_named(name)@ == name@,
        metamethod_named(name).is_custom() == !is_operator_name(name@),
        metamethod_named(name).is_restricted() == is_restricted_name(name@),
{
    lemma_operator_named(name@);
}

/// Makes the spelling of every name that this module mentions known to the verifier.
pub proof fn lemma_spellings()
    ensures
        "__add"@ == seq!['_', '_', 'a', 'd', 'd'],
        "__sub"@ == seq!['_', '_', 's', 'u', 'b'],
        "__mul"@ == seq!['_', '_', 'm', 'u', 'l'],
        "__div"@ == seq!['_', '_', 'd', 'i', 'v'],
        "__mod"@ == seq!['_', '_', 'm', 'o', 'd'],
        "__pow"@ == seq!['_', '_', 'p', 'o', 'w'],
        "__unm"@ == seq!['_', '_', 'u', 'n', 'm'],
        "__idiv"@ == seq!['_', '_', 'i', 'd', 'i', 'v'],
        "__band"@ == seq!['_', '_', 'b', 'a', 'n', 'd'],
        "__bor"@ == seq!['_', '_', 'b', 'o', 'r'],
        "__bxor"@ == seq!['_', '_', 'b', 'x', 'o', 'r'],
        "__bnot"@ == seq!['_', '_', 'b', 'n', 'o', 't'],
        "__shl"@ == seq!['_', '_', 's', 'h', 'l'],
        "__shr"@ == seq!['_', '_', 's', 'h', 'r'],
        "__concat"@ == seq!['_', '_', 'c', 'o', 'n', 'c', 'a', 't'],
        "__len"@ == seq!['_', '_', 'l', 'e', 'n'],
        "__eq"@ == seq!['_', '_', 'e', 'q'],
        "__lt"@ == seq!['_', '_', 'l', 't'],
        "__le"@ == seq!['_', '_', 'l', 'e'],
        "__index"@ == seq!['_', '_', 'i', 'n', 'd', 'e', 'x'],
        "__newindex"@ == seq!['_', '_', 'n', 'e', 'w', 'i', 'n', 'd', 'e', 'x'],
        "__call"@ == seq!['_', '_', 'c', 'a', 'l', 'l'],
        "__tostring"@ == seq!['_', '_', 't', 'o', 's', 't', 'r', 'i', 'n', 'g'],
        "__pairs"@ == seq!['_', '_', 'p', 'a', 'i', 'r', 's'],
        "__ipairs"@ == seq!['_', '_', 'i', 'p', 'a', 'i', 'r', 's'],
        "__close"@ == seq!['_', '_', 'c', 'l', 'o', 's', 'e'],
        "__gc"@ == seq!['_', '_', 'g', 'c'],
        "__metatable"@ == seq!['_', '_', 'm', 'e', 't', 'a', 't', 'a', 'b', 'l', 'e'],
        "__mlua"@ == seq!['_', '_', 'm', 'l', 'u', 'a'],
{
    reveal_strlit("__add");
    reveal_strlit("__sub");
    reveal_strlit("__mul");
    reveal_strlit("__div");
    reveal_strlit("__mod");
    reveal_strlit("__pow");
    reveal_strlit("__unm");
    reveal_strlit("__idiv");
    reveal_strlit("__band");
    reveal_strlit("__bor");
    reveal_strlit("__bxor");
    reveal_strlit("__bnot");
    reveal_strlit("__shl");
    reveal_strlit("__shr");
    reveal_strlit("__concat");
    reveal_strlit("__len");
    reveal_strlit("__eq");
    reveal_strlit("__lt");
    reveal_strlit("__le");
    reveal_strlit("__index");
    reveal_strlit("__newindex");
    reveal_strlit("__call");
    reveal_strlit("__tostring");
    reveal_strlit("__pairs");
    reveal_strlit("__ipairs");
    reveal_strlit("__close");
    reveal_strlit("__gc");
    reveal_strlit("__metatable");
    reveal_strlit("__mlua");
    assert("__add"@ =~= seq!['_', '_', 'a', 'd', 'd']);
    assert("__sub"@ =~= seq!['_', '_', 's', 'u', 'b']);
    assert("__mul"@ =~= seq!['_', '_', 'm', 'u', 'l']);
    assert("__div"@ =~= seq!['_', '_', 'd', 'i', 'v']);
    assert("__mod"@ =~= seq!['_', '_', 'm', 'o', 'd']);
    assert("__pow"@ =~= seq!['_', '_', 'p', 'o', 'w']);
    assert("__unm"@ =~= seq!['_', '_', 'u', 'n', 'm']);
    assert("__idiv"@ =~= seq!['_', '_', 'i', 'd', 'i', 'v']);
    assert("__band"@ =~= seq!['_', '_', 'b', 'a', 'n', 'd']);
    assert("__bor"@ =~= seq!['_', '_', 'b', 'o', 'r']);
    assert("__bxor"@ =~= seq!['_', '_', 'b', 'x', 'o', 'r']);
    assert("__bnot"@ =~= seq!['_', '_', 'b', 'n', 'o', 't']);
    assert("__shl"@ =~= seq!['_', '_', 's', 'h', 'l']);
    assert("__shr"@ =~= seq!['_', '_', 's', 'h', 'r']);
    assert("__concat"@ =~= seq!['_', '_', 'c', 'o', 'n', 'c', 'a', 't']);
    assert("__len"@ =~= seq!['_', '_', 'l', 'e', 'n']);
    assert("__eq"@ =~= seq!['_', '_', 'e', 'q']);
    assert("__lt"@ =~= seq!['_', '_', 'l', 't']);
    assert("__le"@ =~= seq!['_', '_', 'l', 'e']);
    assert("__index"@ =~= seq!['_', '_', 'i', 'n', 'd', 'e', 'x']);
    assert("__newindex"@ =~= seq!['_', '_', 'n', 'e', 'w', 'i', 'n', 'd', 'e', 'x']);
    assert("__call"@ =~= seq!['_', '_', 'c', 'a', 'l', 'l']);
    assert("__tostring"@ =~= seq!['_', '_', 't', 'o', 's', 't', 'r', 'i', 'n', 'g']);
    assert("__pairs"@ =~= seq!['_', '_', 'p', 'a', 'i', 'r', 's']);
    assert("__ipairs"@ =~= seq!['_', '_', 'i', 'p', 'a', 'i', 'r', 's']);
    assert("__close"@ =~= seq!['_', '_', 'c', 'l', 'o', 's', 'e']);
    assert("__gc"@ =~= seq!['_', '_', 'g', 'c']);
    assert("__metatable"@ =~= seq!['_', '_', 'm', 'e', 't', 'a', 't', 'a', 'b', 'l', 'e']);
    assert("__mlua"@ =~= seq!['_', '_', 'm', 'l', 'u', 'a']);
}

/// An operator is known by its name: it is not protected, it is found again by its name, and
/// only `Index` and `NewIndex` are cached by the runtime.
pub proof fn lemma_operator(m: MetaMethod)
    requires
        !m.is_custom(),
    ensures
        is_operator_name(m@),
        operator_named(m@) == Some(m),
        !is_protected_name(m@),
        !m.is_restricted(),
        is_cached_name(m@) == (m is Index || m is NewIndex),
{
    lemma_spellings();
    assert("__mlua"@.is_prefix_of(m@) ==> m@[3] == 'l');
}

/// Two operators with the same name are the same operator.
pub proof fn lemma_operators_differ_by_name(a: MetaMethod, b: MetaMethod)
    requires
        !a.is_custom(),
        !b.is_custom(),
        a@ == b@,
    ensures
        a == b,
{
    lemma_operator(a);
    lemma_operator(b);
}

impl From<String> for MetaMethod {
    /// Reads a metamethod from its name.
    fn from(name: String) -> (r: MetaMethod) {
        match operator_for(name.as_str()) {
            Some(m) => m,
            None => MetaMethod::Custom(name),
        }
    }
}

impl FromSpecImpl<String> for MetaMethod {
    open spec fn obeys_from_spec() -> bool {
        true
    }

    open spec fn from_spec(name: String) -> MetaMethod {
        metamethod_named(name)
    }
}

impl From<&str> for MetaMethod {
    /// Reads a metamethod from its name. The name is copied, so the result is described by
    /// its name and by whether it is custom.
    fn from(name: &str) -> (r: MetaMethod)
        ensures
            r@ == name@,
            r.is_custom() == !is_operator_name(name@),
    {
        let owned = name.to_owned();
        proof {
            lemma_metamethod_named(owned);
        }
        MetaMethod::from(owned)
    }
}

impl FromSpecImpl<&str> for MetaMethod {
    open spec fn obeys_from_spec() -> bool {
        false
    }

    open spec fn from_spec(name: &str) -> MetaMethod {
        metamethod_named(choose|owned: String| owned@ == name@)
    }
}

impl PartialEq for MetaMethod {
    fn eq(&self, other: &MetaMethod) -> (r: bool) {
        str_eq(self.name(), other.name())
    }
}

impl PartialEqSpecImpl for MetaMethod {
    open spec fn obeys_eq_spec() -> bool {
        true
    }

    open spec fn eq_spec(&self, other: &MetaMethod) -> bool {
        self@ == other@
    }
}

impl Eq for MetaMethod {

}

} // verus!
