use vstd::prelude::*;
use vstd::string::StringExecFns;

verus! {

/// One stored template: the name of its file and the bytes of its body.
pub struct TemplateFile {
    pub name: String,
    pub data: Vec<u8>,
}

/// What `files` hold, by file name. Where a name stands twice, the later file
/// counts.
pub open spec fn contents(files: Seq<TemplateFile>) -> Map<Seq<char>, Seq<u8>>
    decreases files.len(),
{
    if files.len() == 0 {
        Map::empty()
    } else {
        contents(files.drop_last()).insert(files.last().name@, files.last().data@)
    }
}

/// The file name under which the template of a service is stored.
pub open spec fn template_file_name(service_name: Seq<char>) -> Seq<char> {
    service_name + ".yaml.hbs"@
}

/// The file name under which the template of a service is stored.
pub fn template_name(service_name: &str) -> (file: String)
    ensures
        file@ == template_file_name(service_name@),
{
    String::from_str(service_name).concat(".yaml.hbs")
}

/// The templates that the service was built with, by file name.
pub struct TemplateDirectory {
    files: Vec<TemplateFile>,
}

impl View for TemplateDirectory {
    type V = Map<Seq<char>, Seq<u8>>;

    closed spec fn view(&self) -> Map<Seq<char>, Seq<u8>> {
        contents(self.files@)
    }
}

/// A file of a given name that no later file hides is what `contents` holds
/// under that name; a name that no file has is not in `contents`.
proof fn lemma_contents(files: Seq<TemplateFile>, name: Seq<char>, from: int)
    requires
        0 <= from <= files.len(),
        forall|j: int| from <= j < files.len() ==> files[j].name@ != name,
    ensures
        from > 0 && files[from - 1].name@ == name ==> contents(files).contains_key(name)
            && contents(files)[name] == files[from - 1].data@,
        from == 0 ==> !contents(files).contains_key(name),
    decreases files.len(),
{
    if files.len() > from {
        assert forall|j: int| from <= j < files.drop_last().len() implies files.drop_last()[j].name@
            != name by {
            assert(files.drop_last()[j] == files[j]);
        }
        lemma_contents(files.drop_last(), name, from);
    }
}

impl TemplateDirectory {
    /// A directory without any template.
    pub fn new() -> (directory: TemplateDirectory)
        ensures
            directory@ == Map::<Seq<char>, Seq<u8>>::empty(),
    {
        TemplateDirectory { files: Vec::new() }
    }

    /// Stores `data` under `name`, in place of what was stored under that
    /// name before.
    pub fn insert(&mut self, name: &str, data: Vec<u8>)
        ensures
            final(self)@ == old(self)@.insert(name@, data@),
    {
        let file = TemplateFile { name: String::from_str(name), data };
        self.files.push(file);
        assert(self.files@.drop_last() =~= old(self).files@);
    }

    /// The body stored under `name`.
    pub fn get(&self, name: &str) -> (data: Option<&Vec<u8>>)
        ensures
            match data {
                Some(data) => self@.contains_key(name@) && self@[name@] == data@,
                None => !self@.contains_key(name@),
            },
    {
        let wanted = String::from_str(name);
        let mut at = self.files.len();
        while at > 0
            invariant
                at <= self.files.len(),
                wanted@ == name@,
                forall|j: int| at <= j < self.files.len() ==> self.files@[j].name@ != name@,
            decreases at,
        {
            if self.files[at - 1].name == wanted {
                proof {
                    lemma_contents(self.files@, name@, at as int);
                }
                return Some(&self.files[at - 1].data);
            }
            at -= 1;
        }
        proof {
            lemma_contents(self.files@, name@, 0);
        }
        None
    }
}

} // verus!
