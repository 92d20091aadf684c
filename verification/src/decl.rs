//! The declaration model that the build pipeline works on: a partition
//! module is a list of declarations, each carrying attributes made of
//! plain keys and values. Shared lookup and validation helpers live here,
//! together with the build-time error type.

use vstd::prelude::*;

verus! {

use vstd::string::StringSliceAdditionalSpecFns;

/// The value of one attribute argument.
#[derive(Debug, Clone, PartialEq, Eq)]
pub enum AttrValue {
    Str(String),
    Int(i64),
    /// a bare key, as in a `start(cold)` marker
    Flag,
}

/// One `key = value` (or bare `key`) argument of an attribute.
#[derive(Debug, Clone, PartialEq, Eq)]
pub struct AttrArg {
    pub key: String,
    pub value: AttrValue,
}

/// One attribute, as in `sampling_out(name = "Ch1", msg_size = "10KB")`.
#[derive(Debug, Clone, PartialEq, Eq)]
pub struct Attr {
    pub name: String,
    pub args: Vec<AttrArg>,
}

/// The signature of a function declaration: its parameter types and its
/// return type, as written; `None` stands for no return type at all.
#[derive(Debug, Clone, PartialEq, Eq)]
pub struct FnSignature {
    pub inputs: Vec<String>,
    pub output: Option<String>,
}

/// What kind of item a declaration is.
#[derive(Debug, Clone, PartialEq, Eq)]
pub enum DeclKind {
    Struct,
    Func(FnSignature),
    /// any other item, echoed through untouched
    Other,
}

/// One declaration of a partition module.
#[derive(Debug, Clone, PartialEq, Eq)]
pub struct Decl {
    pub ident: String,
    pub attrs: Vec<Attr>,
    pub kind: DeclKind,
}

/// Which of the two start functions an error speaks of.
#[derive(Copy, Clone, Debug, PartialEq, Eq, Structural)]
pub enum StartKind {
    Cold,
    Warm,
}

/// The closed set of kind markers a declaration can carry.
#[derive(Copy, Clone, Debug, PartialEq, Eq, Structural)]
pub enum Marker {
    SamplingOut,
    SamplingIn,
    QueuingOut,
    QueuingIn,
    Periodic,
    Aperiodic,
}

/// The closed set of named fields the markers accept.
#[derive(Copy, Clone, Debug, PartialEq, Eq, Structural)]
pub enum FieldName {
    Name,
    MsgSize,
    MsgCount,
    Discipline,
    RefreshPeriod,
    Period,
    TimeCapacity,
    StackSize,
    BasePriority,
    Deadline,
}

/// One build-time error category.
#[derive(Debug, Clone, PartialEq, Eq)]
pub enum BuildErrorKind {
    /// a name is longer than 32 bytes or holds a non-printable character
    InvalidName { field: FieldName },
    /// a size or duration literal did not parse
    MalformedLiteral { field: FieldName },
    /// a numeric value is zero, negative or too large
    OutOfRange { field: FieldName },
    /// an enumeration literal is outside its closed set
    UnknownEnumValue { field: FieldName },
    /// a required field was not given
    MissingField { field: FieldName },
    /// one declaration carries more than one kind marker, named here
    MultipleMarkers { markers: Vec<Marker> },
    /// a start kind is tagged a second time; `first` points at the
    /// declaration that defined it
    StartAlreadyDefined { kind: StartKind, first: usize },
    /// one function is tagged as both the cold and the warm start
    ConflictingStartKinds,
    /// no function is tagged with this start kind
    MissingStart { kind: StartKind },
    /// a start or process function declares a return type
    ReturnNotAllowed,
    /// a start or process function does not take exactly the expected
    /// context parameter
    WrongParameter { expected: String },
}

/// A build-time error, pointing at the declaration it arose on.
#[derive(Debug, Clone, PartialEq, Eq)]
pub struct BuildError {
    pub decl: usize,
    pub kind: BuildErrorKind,
}

/// String equality by view.
pub fn str_eq(a: &str, b: &str) -> (r: bool)
    ensures
        r == (a@ == b@),
{
    let sa = a.to_owned();
    let sb = b.to_owned();
    sa == sb
}

/// Whether some attribute in the list carries this name.
pub open spec fn has_attr(attrs: Seq<Attr>, name: Seq<char>) -> bool {
    exists|i: int| 0 <= i < attrs.len() && attrs[i].name@ == name
}

/// Whether an attribute named `attr` occurs in the list.
pub fn contains_attribute(attr: &str, attrs: &[Attr]) -> (r: bool)
    ensures
        r == has_attr(attrs@, attr@),
{
    let mut i: usize = 0;
    while i < attrs.len()
        invariant
            i <= attrs@.len(),
            forall|j: int| 0 <= j < i ==> attrs@[j].name@ != attr@,
        decreases attrs@.len() - i,
    {
        if str_eq(attrs[i].name.as_str(), attr) {
            return true;
        }
        i += 1;
    }
    false
}

/// The list without the attributes of the given name, in order.
pub open spec fn spec_remove_attrs(attrs: Seq<Attr>, name: Seq<char>) -> Seq<Attr>
    decreases attrs.len(),
{
    if attrs.len() == 0 {
        Seq::empty()
    } else if attrs[0].name@ == name {
        spec_remove_attrs(attrs.drop_first(), name)
    } else {
        seq![attrs[0]] + spec_remove_attrs(attrs.drop_first(), name)
    }
}

/// Strips every attribute of the given name, keeping the rest in order.
pub fn remove_attributes(attr: &str, attrs: &mut Vec<Attr>)
    ensures
        final(attrs)@ == spec_remove_attrs(old(attrs)@, attr@),
{
    let ghost orig = attrs@;
    let mut out: Vec<Attr> = Vec::new();
    proof {
        assert(out@ + spec_remove_attrs(attrs@, attr@) =~= spec_remove_attrs(orig, attr@));
    }
    while attrs.len() > 0
        invariant
            out@ + spec_remove_attrs(attrs@, attr@) == spec_remove_attrs(orig, attr@),
        decreases attrs@.len(),
    {
        let ghost prev = attrs@;
        let a = attrs.remove(0);
        proof {
            assert(prev.remove(0) =~= prev.drop_first());
            assert(a == prev[0]);
        }
        if !str_eq(a.as_name_str(), attr) {
            let ghost before = out@;
            out.push(a);
            proof {
                assert(spec_remove_attrs(prev, attr@) =~= seq![prev[0]]
                    + spec_remove_attrs(prev.drop_first(), attr@));
                assert(out@ + spec_remove_attrs(attrs@, attr@) =~= before
                    + spec_remove_attrs(prev, attr@));
            }
        }
    }
    proof {
        assert(attrs@.len() == 0);
        assert(out@ + spec_remove_attrs(attrs@, attr@) =~= out@);
    }
    *attrs = out;
}

impl Attr {
    /// The attribute's name as a string slice.
    pub fn as_name_str(&self) -> (r: &str)
        ensures
            r@ == self.name@,
    {
        self.name.as_str()
    }
}

/// A string copy whose specification pins the value; the derived clone
/// carries none.
pub fn clone_string(s: &String) -> (r: String)
    ensures
        r == *s,
{
    s.clone()
}

/// The first value under this key among the arguments, if any.
pub open spec fn spec_args_find(args: Seq<AttrArg>, key: Seq<char>) -> Option<AttrValue>
    decreases args.len(),
{
    if args.len() == 0 {
        None
    } else if args[0].key@ == key {
        Some(args[0].value)
    } else {
        spec_args_find(args.drop_first(), key)
    }
}

/// The first value under this key among the arguments of all attributes of
/// the given marker, if any.
pub open spec fn spec_find_field(attrs: Seq<Attr>, marker: Seq<char>, key: Seq<char>) -> Option<
    AttrValue,
>
    decreases attrs.len(),
{
    if attrs.len() == 0 {
        None
    } else if attrs[0].name@ == marker && spec_args_find(attrs[0].args@, key) is Some {
        spec_args_find(attrs[0].args@, key)
    } else {
        spec_find_field(attrs.drop_first(), marker, key)
    }
}

proof fn lemma_args_find_skip(args: Seq<AttrArg>, key: Seq<char>, i: int)
    requires
        0 <= i <= args.len(),
        forall|j: int| 0 <= j < i ==> args[j].key@ != key,
    ensures
        spec_args_find(args, key) == spec_args_find(args.skip(i), key),
    decreases i,
{
    if i == 0 {
        assert(args.skip(0) =~= args);
    } else {
        assert(args[0].key@ != key);
        assert(spec_args_find(args, key) == spec_args_find(args.drop_first(), key));
        assert(forall|j: int| 0 <= j < i - 1 ==> args.drop_first()[j] == args[j + 1]);
        lemma_args_find_skip(args.drop_first(), key, i - 1);
        assert(args.drop_first().skip(i - 1) =~= args.skip(i));
    }
}

proof fn lemma_find_field_skip(attrs: Seq<Attr>, marker: Seq<char>, key: Seq<char>, i: int)
    requires
        0 <= i <= attrs.len(),
        forall|j: int|
            0 <= j < i ==> (attrs[j].name@ != marker || spec_args_find(attrs[j].args@, key)
                is None),
    ensures
        spec_find_field(attrs, marker, key) == spec_find_field(attrs.skip(i), marker, key),
    decreases i,
{
    if i == 0 {
        assert(attrs.skip(0) =~= attrs);
    } else {
        assert(attrs[0].name@ != marker || spec_args_find(attrs[0].args@, key) is None);
        assert(spec_find_field(attrs, marker, key) == spec_find_field(
            attrs.drop_first(),
            marker,
            key,
        ));
        assert(forall|j: int| 0 <= j < i - 1 ==> attrs.drop_first()[j] == attrs[j + 1]);
        lemma_find_field_skip(attrs.drop_first(), marker, key, i - 1);
        assert(attrs.drop_first().skip(i - 1) =~= attrs.skip(i));
    }
}

/// Finds the first value of `key` among the arguments of the attributes
/// named `marker`.
pub fn find_field<'a>(attrs: &'a Vec<Attr>, marker: &str, key: &str) -> (r: Option<&'a AttrValue>)
    ensures
        r matches Some(v) ==> spec_find_field(attrs@, marker@, key@) == Some(*v),
        r is None ==> spec_find_field(attrs@, marker@, key@) is None,
{
    let mut i: usize = 0;
    while i < attrs.len()
        invariant
            i <= attrs@.len(),
            forall|j: int|
                0 <= j < i ==> (attrs@[j].name@ != marker@ || spec_args_find(
                    attrs@[j].args@,
                    key@,
                ) is None),
        decreases attrs@.len() - i,
    {
        let a = &attrs[i];
        if str_eq(a.name.as_str(), marker) {
            let mut j: usize = 0;
            while j < a.args.len()
                invariant
                    j <= a.args@.len(),
                    i < attrs@.len(),
                    *a == attrs@[i as int],
                    a.name@ == marker@,
                    forall|k: int| 0 <= k < j ==> a.args@[k].key@ != key@,
                    forall|l: int|
                        0 <= l < i ==> (attrs@[l].name@ != marker@ || spec_args_find(
                            attrs@[l].args@,
                            key@,
                        ) is None),
                decreases a.args@.len() - j,
            {
                if str_eq(a.args[j].key.as_str(), key) {
                    proof {
                        lemma_args_find_skip(a.args@, key@, j as int);
                        assert(a.args@.skip(j as int).len() == a.args@.len() - j);
                        assert(a.args@.skip(j as int)[0] == a.args@[j as int]);
                        assert(spec_args_find(a.args@, key@) == Some(a.args@[j as int].value));
                        lemma_find_field_skip(attrs@, marker@, key@, i as int);
                        assert(attrs@.skip(i as int).len() == attrs@.len() - i);
                        assert(attrs@.skip(i as int)[0] == attrs@[i as int]);
                    }
                    return Some(&a.args[j].value);
                }
                j += 1;
            }
            proof {
                lemma_args_find_skip(a.args@, key@, a.args@.len() as int);
                assert(a.args@.skip(a.args@.len() as int) =~= Seq::<AttrArg>::empty());
            }
        }
        i += 1;
    }
    proof {
        lemma_find_field_skip(attrs@, marker@, key@, attrs@.len() as int);
        assert(attrs@.skip(attrs@.len() as int) =~= Seq::<Attr>::empty());
    }
    None
}

/// Whether the marker's field is present at all.
pub open spec fn has_field(attrs: Seq<Attr>, marker: Seq<char>, key: Seq<char>) -> bool {
    spec_find_field(attrs, marker, key) is Some
}

/// Rejects a declared return type: only a missing return type or the unit
/// type `()` passes.
pub fn no_return_type(ident: &str, output: &Option<String>) -> (r: Result<(), BuildErrorKind>)
    ensures
        r is Ok <==> (output is None || (output matches Some(t) && t@ == "()"@)),
        r matches Err(e) ==> e == BuildErrorKind::ReturnNotAllowed,
{
    match output {
        None => Ok(()),
        Some(t) => {
            if str_eq(t.as_str(), "()") {
                Ok(())
            } else {
                Err(BuildErrorKind::ReturnNotAllowed)
            }
        },
    }
}

/// Requires the signature to take exactly one parameter of the given type.
pub fn single_function_argument(ty: &str, sig: &FnSignature) -> (r: Result<(), BuildErrorKind>)
    ensures
        r is Ok <==> (sig.inputs@.len() == 1 && sig.inputs@[0]@ == ty@),
        r matches Err(e) ==> (e matches BuildErrorKind::WrongParameter { expected } && expected@
            == ty@),
    {
    if sig.inputs.len() != 1 {
        return Err(BuildErrorKind::WrongParameter { expected: ty.to_owned() });
    }
    if str_eq(sig.inputs[0].as_str(), ty) {
        Ok(())
    } else {
        Err(BuildErrorKind::WrongParameter { expected: ty.to_owned() })
    }
}

} // verus!
