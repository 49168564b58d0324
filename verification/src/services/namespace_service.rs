use crate::text::texts;
use vstd::prelude::*;
use vstd::string::StringExecFns;

verus! {

/// The names among `names` that are there, in order.
pub open spec fn present(names: Seq<Option<String>>) -> Seq<Seq<char>>
    decreases names.len(),
{
    if names.len() == 0 {
        Seq::empty()
    } else {
        match names.last() {
            Some(name) => present(names.drop_last()).push(name@),
            None => present(names.drop_last()),
        }
    }
}

/// Lists the names of the namespaces that the control plane returned, in its
/// order. A namespace without a name is left out.
pub fn namespace_names(names: Vec<Option<String>>) -> (listed: Vec<String>)
    ensures
        texts(listed@) == present(names@),
{
    let mut listed: Vec<String> = Vec::new();
    let mut i: usize = 0;
    assert(names@.take(0) =~= Seq::empty());
    while i < names.len()
        invariant
            i <= names.len(),
            texts(listed@) == present(names@.take(i as int)),
        decreases names.len() - i,
    {
        assert(names@.take(i + 1).drop_last() =~= names@.take(i as int));
        match &names[i] {
            Some(name) => {
                let ghost before = texts(listed@);
                listed.push(name.clone());
                assert(texts(listed@) =~= before.push(name@));
            },
            None => {},
        }
        i += 1;
    }
    assert(names@.take(i as int) =~= names@);
    listed
}

/// The answer to a request that created the namespace `name`.
pub fn created_message(name: &str) -> (message: String)
    ensures
        message@ == "Created namespace: "@ + name@,
{
    String::from_str("Created namespace: ").concat(name)
}

/// The answer to a request that deleted the namespace `name`.
pub fn deleted_message(name: &str) -> (message: String)
    ensures
        message@ == "delete namespace: "@ + name@,
{
    String::from_str("delete namespace: ").concat(name)
}

} // verus!
