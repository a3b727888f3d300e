//! A static registry of known packages: a simple name mapped to the URL the
//! package is fetched from, with a short description and its language.

use vstd::prelude::*;

verus! {

/// The implementation language a registered package is written in.
pub enum Language {
    CXX,
    C,
}

/// The display name of a language.
pub open spec fn language_name(l: Language) -> Seq<char> {
    match l {
        Language::CXX => "C++"@,
        Language::C => "C"@,
    }
}

impl Language {
    /// Renders the language's display name.
    pub fn to_string(&self) -> (r: String)
        ensures
            r@ == language_name(*self),
    {
        match self {
            Language::CXX => String::from_str("C++"),
            Language::C => String::from_str("C"),
        }
    }
}

/// A registered package.
pub struct Package {
    pub url: String,
    pub description: String,
    pub language: Language,
}

impl Package {
    /// Builds a package entry from its parts.
    pub fn new(url: String, desc: String, lang: Language) -> (r: Package)
        ensures
            r.url == url,
            r.description == desc,
            r.language == lang,
    {
        Package { url, description: desc, language: lang }
    }

    /// Where the package is fetched from.
    pub fn get_url(&self) -> (r: &str)
        ensures
            r@ == self.url@,
    {
        self.url.as_str()
    }

    /// A short description of the package.
    pub fn get_description(&self) -> (r: &str)
        ensures
            r@ == self.description@,
    {
        self.description.as_str()
    }

    /// The language the package is written in.
    pub fn get_language(&self) -> (r: &Language)
        ensures
            *r == self.language,
    {
        &self.language
    }
}

/// A name-keyed collection of packages, in insertion order, with unique
/// names.
pub struct PackageRegistry {
    reg: Vec<(String, Package)>,
}

impl View for PackageRegistry {
    type V = Seq<(String, Package)>;

    closed spec fn view(&self) -> Seq<(String, Package)> {
        self.reg@
    }
}

impl PackageRegistry {
    /// No two entries share a name.
    pub open spec fn wf(&self) -> bool {
        forall|i: int, j: int|
            0 <= i < j < self@.len() ==> (#[trigger] self@[i]).0@ != (#[trigger] self@[j]).0@
    }

    /// An empty registry, to be filled entry by entry.
    pub fn new() -> (r: PackageRegistry)
        ensures
            r@ == Seq::<(String, Package)>::empty(),
            r.wf(),
    {
        PackageRegistry { reg: Vec::new() }
    }

    /// Registers a package under a name not yet taken.
    pub fn add(&mut self, name: String, package: Package)
        requires
            old(self).wf(),
            forall|i: int| 0 <= i < old(self)@.len() ==> (#[trigger] old(self)@[i]).0@ != name@,
        ensures
            final(self)@ == old(self)@.push((name, package)),
            final(self).wf(),
    {
        self.reg.push((name, package));
        proof {
            assert forall|i: int, j: int| 0 <= i < j < self@.len() implies (
            #[trigger] self@[i]).0@ != (#[trigger] self@[j]).0@ by {
                assert(self@ == old(self)@.push((name, package)));
                assert(self@[i] == old(self)@[i]);
                if j < self@.len() - 1 {
                    assert(self@[j] == old(self)@[j]);
                    assert((old(self)@[i]).0@ != (old(self)@[j]).0@);
                } else {
                    assert(self@[j] == (name, package));
                    assert((old(self)@[i]).0@ != name@);
                }
            }
        }
    }

    /// Looks a package up by its name.
    pub fn get(&self, id: &str) -> (r: Option<&Package>)
        ensures
            match r {
                Some(p) => exists|i: int|
                    0 <= i < self@.len() && (#[trigger] self@[i]).0@ == id@ && *p == self@[i].1,
                None => forall|i: int| 0 <= i < self@.len() ==> (#[trigger] self@[i]).0@ != id@,
            },
    {
        let target = String::from_str(id);
        let mut i: usize = 0;
        while i < self.reg.len()
            invariant
                i <= self.reg@.len(),
                target@ == id@,
                forall|k: int| 0 <= k < i ==> (#[trigger] self.reg@[k]).0@ != id@,
            decreases self.reg@.len() - i,
        {
            if self.reg[i].0 == target {
                proof {
                    assert((#[trigger] self@[i as int]).0@ == id@);
                }
                return Some(&self.reg[i].1);
            }
            i += 1;
        }
        None
    }

    /// Every registered entry, in insertion order.
    pub fn packages(&self) -> (r: &Vec<(String, Package)>)
        ensures
            r@ == self@,
    {
        &self.reg
    }
}

} // verus!
