//! The descriptor of a loader: the target type, the two type names that
//! follow from it by convention, and the path of the source document.

use vstd::prelude::*;
use vstd::string::*;

verus! {

/// The name of the raw intermediate type of a target type: `Raw` in front of
/// the target's name.
pub open spec fn raw_type_name(ident: Seq<char>) -> Seq<char> {
    seq!['R', 'a', 'w'] + ident
}

/// The name of the error type of a target type: the target's name with
/// `Error` behind it.
pub open spec fn error_type_name(ident: Seq<char>) -> Seq<char> {
    ident + seq!['E', 'r', 'r', 'o', 'r']
}

/// Two target types never share a raw intermediate type.
pub proof fn lemma_raw_type_name_injective(a: Seq<char>, b: Seq<char>)
    requires
        raw_type_name(a) == raw_type_name(b),
    ensures
        a == b,
{
    assert(raw_type_name(a).skip(3) =~= a);
    assert(raw_type_name(b).skip(3) =~= b);
}

/// Two target types never share an error type.
pub proof fn lemma_error_type_name_injective(a: Seq<char>, b: Seq<char>)
    requires
        error_type_name(a) == error_type_name(b),
    ensures
        a == b,
{
    assert(error_type_name(a).len() == a.len() + 5);
    assert(error_type_name(b).len() == b.len() + 5);
    assert(error_type_name(a).take(a.len() as int) =~= a);
    assert(error_type_name(b).take(b.len() as int) =~= b);
}

/// The three type names that belong to one target type differ from each
/// other, so the types derived for it collide neither with it nor with one
/// another.
pub proof fn lemma_type_names_distinct(ident: Seq<char>)
    ensures
        raw_type_name(ident) != ident,
        error_type_name(ident) != ident,
        raw_type_name(ident) != error_type_name(ident),
{
    assert(raw_type_name(ident).len() == ident.len() + 3);
    assert(error_type_name(ident).len() == ident.len() + 5);
}

/// The raw intermediate type of one target type and the error type of
/// another share a name only where the first target's name is itself the
/// error type name, and the second's the raw type name, of one and the same
/// third type.
pub proof fn lemma_raw_meets_error(a: Seq<char>, b: Seq<char>)
    requires
        raw_type_name(a) == error_type_name(b),
    ensures
        exists|of: Seq<char>| a == error_type_name(of) && b == #[trigger] raw_type_name(of),
{
    let name = raw_type_name(a);
    assert(name.len() == a.len() + 3);
    assert(error_type_name(b).len() == b.len() + 5);
    assert(name[0] == 'R' && name[1] == 'a' && name[2] == 'w');
    if b.len() < 3 {
        // The `E` of `Error` would stand among the first three characters
        // of the name, which are `Raw`.
        assert(error_type_name(b)[b.len() as int] == 'E');
        assert(false);
    }
    let of = b.skip(3);
    assert forall|i: int| 0 <= i < 3 implies b[i] == name[i] by {
        assert(error_type_name(b)[i] == b[i]);
    }
    assert(b =~= raw_type_name(of));
    assert forall|i: int| 0 <= i < a.len() implies a[i] == error_type_name(of)[i] by {
        assert(name[i + 3] == a[i]);
        assert(error_type_name(b)[i + 3] == name[i + 3]);
    }
    assert(a =~= error_type_name(of));
}

/// The raw intermediate type's name for `ident`.
pub fn raw_name(ident: &str) -> (name: String)
    ensures
        name@ == raw_type_name(ident@),
{
    let mut name = String::new();
    name.append("Raw");
    name.append(ident);
    proof {
        reveal_strlit("Raw");
    }
    name
}

/// The error type's name for `ident`.
pub fn error_name(ident: &str) -> (name: String)
    ensures
        name@ == error_type_name(ident@),
{
    let mut name = String::new();
    name.append(ident);
    name.append("Error");
    proof {
        reveal_strlit("Error");
    }
    name
}

/// What a descriptor holds, as plain texts.
pub struct DescriptorView {
    pub ident: Seq<char>,
    pub raw_ident: Seq<char>,
    pub error_type: Seq<char>,
    pub src_path: Seq<char>,
}

/// The descriptor of the loader for the target type `ident` with the source
/// document at `src_path`.
pub open spec fn descriptor_for(ident: Seq<char>, src_path: Seq<char>) -> DescriptorView {
    DescriptorView {
        ident,
        raw_ident: raw_type_name(ident),
        error_type: error_type_name(ident),
        src_path,
    }
}

impl DescriptorView {
    /// The two derived names follow the convention, and the path is not
    /// empty.
    pub open spec fn well_formed(self) -> bool {
        &&& self.raw_ident == raw_type_name(self.ident)
        &&& self.error_type == error_type_name(self.ident)
        &&& self.src_path.len() > 0
    }
}

/// All that the generator needs to know of an annotated type. Every value
/// of this type is well formed.
#[derive(Debug, PartialEq, Eq)]
pub struct Descriptor {
    ident: String,
    raw_ident: String,
    error_type: String,
    src_path: String,
}

impl View for Descriptor {
    type V = DescriptorView;

    closed spec fn view(&self) -> DescriptorView {
        DescriptorView {
            ident: self.ident@,
            raw_ident: self.raw_ident@,
            error_type: self.error_type@,
            src_path: self.src_path@,
        }
    }
}

impl Clone for Descriptor {
    fn clone(&self) -> (copy: Descriptor)
        ensures
            copy@ == self@,
    {
        proof {
            use_type_invariant(self);
        }
        Descriptor {
            ident: self.ident.clone(),
            raw_ident: self.raw_ident.clone(),
            error_type: self.error_type.clone(),
            src_path: self.src_path.clone(),
        }
    }
}

impl Descriptor {
    #[verifier::type_invariant]
    spec fn holds_convention(&self) -> bool {
        self@.well_formed()
    }

    /// The descriptor for the target type `ident` and the document at
    /// `src_path`; `None` for an empty path, which names no document.
    pub fn new(ident: &str, src_path: &str) -> (made: Option<Descriptor>)
        ensures
            src_path@.len() == 0 ==> made is None,
            src_path@.len() > 0 ==> (made matches Some(d) && d@ == descriptor_for(
                ident@,
                src_path@,
            )),
    {
        if src_path.unicode_len() == 0 {
            return None;
        }
        let descriptor = Descriptor {
            ident: String::from_str(ident),
            raw_ident: raw_name(ident),
            error_type: error_name(ident),
            src_path: String::from_str(src_path),
        };
        Some(descriptor)
    }

    /// The target type's name.
    pub fn ident(&self) -> (name: &str)
        ensures
            name@ == self@.ident,
    {
        self.ident.as_str()
    }

    /// The raw intermediate type's name.
    pub fn raw_ident(&self) -> (name: &str)
        ensures
            name@ == self@.raw_ident,
            name@ == raw_type_name(self@.ident),
    {
        proof {
            use_type_invariant(self);
        }
        self.raw_ident.as_str()
    }

    /// The error type's name.
    pub fn error_type(&self) -> (name: &str)
        ensures
            name@ == self@.error_type,
            name@ == error_type_name(self@.ident),
    {
        proof {
            use_type_invariant(self);
        }
        self.error_type.as_str()
    }

    /// The path of the source document; never empty.
    pub fn src_path(&self) -> (path: &str)
        ensures
            path@ == self@.src_path,
            path@.len() > 0,
    {
        proof {
            use_type_invariant(self);
        }
        self.src_path.as_str()
    }
}

} // verus!
