//! The named component libraries: a mapping from library name to its
//! ordered component definitions, queried by (library, name) or by name
//! alone. The first match in insertion order wins.

use vstd::prelude::*;

use crate::component::{Component, ComponentV, elems_wf};
use crate::parsing::library::{components_view, parse_components, sp_lib_file, all_components_wf,
    lemma_parsed_library_wf};

verus! {

/// One named library of component definitions.
#[derive(Debug, Clone, PartialEq)]
pub struct ComponentLibrary {
    pub name: String,
    pub components: Vec<Component>,
}

pub ghost struct ComponentLibraryV {
    pub name: Seq<char>,
    pub components: Seq<ComponentV>,
}

impl View for ComponentLibrary {
    type V = ComponentLibraryV;

    open spec fn view(&self) -> ComponentLibraryV {
        ComponentLibraryV { name: self.name@, components: components_view(self.components@) }
    }
}

/// The view of a library vector.
pub open spec fn libraries_view(v: Seq<ComponentLibrary>) -> Seq<ComponentLibraryV> {
    Seq::new(v.len(), |i: int| v[i]@)
}

/// The first component with the given name, in order.
pub open spec fn find_comp(cs: Seq<ComponentV>, name: Seq<char>) -> Option<ComponentV>
    decreases cs.len(),
{
    if cs.len() == 0 {
        None
    } else if cs.first().name == name {
        Some(cs.first())
    } else {
        find_comp(cs.drop_first(), name)
    }
}

/// The first component with the given name across all libraries, in
/// library order.
pub open spec fn find_by_name(ls: Seq<ComponentLibraryV>, name: Seq<char>) -> Option<ComponentV>
    decreases ls.len(),
{
    if ls.len() == 0 {
        None
    } else {
        match find_comp(ls.first().components, name) {
            Some(c) => Some(c),
            None => find_by_name(ls.drop_first(), name),
        }
    }
}

/// The first library with the given name.
pub open spec fn find_lib(ls: Seq<ComponentLibraryV>, name: Seq<char>) -> Option<
    ComponentLibraryV,
>
    decreases ls.len(),
{
    if ls.len() == 0 {
        None
    } else if ls.first().name == name {
        Some(ls.first())
    } else {
        find_lib(ls.drop_first(), name)
    }
}

/// The first component with the given name inside the named library.
pub open spec fn find_in_lib(
    ls: Seq<ComponentLibraryV>,
    lib_name: Seq<char>,
    name: Seq<char>,
) -> Option<ComponentV> {
    match find_lib(ls, lib_name) {
        Some(l) => find_comp(l.components, name),
        None => None,
    }
}

/// Every library's every element is bounded, so box arithmetic on the
/// collection is exact.
pub open spec fn libs_wf(ls: Seq<ComponentLibraryV>) -> bool {
    forall|i: int, j: int|
        0 <= i < ls.len() && 0 <= j < ls[i].components.len() ==> elems_wf(
            (#[trigger] ls[i].components[j]).elements,
        )
}

/// The authoritative collection of component libraries.
#[derive(Debug)]
pub struct ComponentLibraries {
    libraries: Vec<ComponentLibrary>,
}

impl View for ComponentLibraries {
    type V = Seq<ComponentLibraryV>;

    closed spec fn view(&self) -> Seq<ComponentLibraryV> {
        libraries_view(self.libraries@)
    }
}

/// The first component named `name` among the components of `lib`.
fn find_comp_in<'a>(lib: &'a ComponentLibrary, name: &String) -> (r: Option<&'a Component>)
    ensures
        match r {
            Some(c) => find_comp(lib@.components, name@) == Some(c@),
            None => find_comp(lib@.components, name@) is None,
        },
{
    let mut ci: usize = 0;
    proof {
        assert(lib@.components.subrange(0, lib@.components.len() as int) =~= lib@.components);
    }
    while ci < lib.components.len()
        invariant
            0 <= ci <= lib.components@.len(),
            find_comp(lib@.components, name@) == find_comp(
                lib@.components.subrange(ci as int, lib@.components.len() as int),
                name@,
            ),
        decreases lib.components@.len() - ci,
    {
        let ghost suffix = lib@.components.subrange(ci as int, lib@.components.len() as int);
        proof {
            assert(suffix.first() == lib@.components[ci as int]);
            assert(suffix.drop_first() =~= lib@.components.subrange(
                ci + 1,
                lib@.components.len() as int,
            ));
        }
        if lib.components[ci].name == *name {
            return Some(&lib.components[ci]);
        }
        ci = ci + 1;
    }
    proof {
        assert(lib@.components.subrange(
            lib@.components.len() as int,
            lib@.components.len() as int,
        ) =~= Seq::<ComponentV>::empty());
    }
    None
}

impl ComponentLibraries {
    /// A collection with no libraries.
    pub fn new() -> (r: ComponentLibraries)
        ensures
            r@ =~= Seq::<ComponentLibraryV>::empty(),
    {
        ComponentLibraries { libraries: Vec::new() }
    }

    /// Add a named library with its component definitions.
    pub fn add_library(&mut self, name: String, components: Vec<Component>)
        ensures
            final(self)@ =~= old(self)@.push(
                ComponentLibraryV {
                    name: name@,
                    components: components_view(components@),
                },
            ),
    {
        self.libraries.push(ComponentLibrary { name, components });
    }

    /// Decode a component-library file and add its definitions under the
    /// given name. The collection is unchanged when the input does not
    /// match the grammar.
    pub fn load_library(&mut self, name: String, input: &[u8]) -> (ok: bool)
        ensures
            ok <==> sp_lib_file(input@) is Some,
            !ok ==> final(self)@ == old(self)@,
            ok ==> (sp_lib_file(input@) matches Some(cs) && final(self)@ =~= old(self)@.push(
                ComponentLibraryV { name: name@, components: cs },
            ) && all_components_wf(cs)),
            libs_wf(old(self)@) && ok ==> libs_wf(final(self)@),
    {
        match parse_components(input) {
            Some(comps) => {
                proof {
                    lemma_parsed_library_wf(input@);
                }
                let ghost before = self@;
                self.add_library(name, comps);
                proof {
                    let cs = sp_lib_file(input@).unwrap();
                    let added = ComponentLibraryV { name: name@, components: cs };
                    assert(self@ =~= before.push(added));
                    if libs_wf(before) {
                        assert(forall|i: int, j: int|
                            0 <= i < self@.len() && 0 <= j < self@[i].components.len()
                                ==> elems_wf((#[trigger] self@[i].components[j]).elements)) by {
                            assert(forall|i: int| 0 <= i < before.len() ==> self@[i] == before[i]);
                            assert(self@[before.len() as int] == added);
                        }
                    }
                }
                true
            },
            None => false,
        }
    }

    /// The library names, in insertion order.
    pub fn get_libraries(&self) -> (r: Vec<String>)
        ensures
            r@.len() == self@.len(),
            forall|i: int| 0 <= i < r@.len() ==> (#[trigger] r@[i])@ == self@[i].name,
    {
        let mut out: Vec<String> = Vec::new();
        let mut li: usize = 0;
        while li < self.libraries.len()
            invariant
                0 <= li <= self.libraries@.len(),
                out@.len() == li,
                forall|i: int|
                    0 <= i < out@.len() ==> (#[trigger] out@[i])@ == libraries_view(
                        self.libraries@,
                    )[i].name,
            decreases self.libraries@.len() - li,
        {
            out.push(self.libraries[li].name.clone());
            li = li + 1;
        }
        out
    }

    /// The first component with this name, searching every library in
    /// order.
    pub fn get_component_by_name(&self, name: &String) -> (r: Option<&Component>)
        ensures
            match r {
                Some(c) => find_by_name(self@, name@) == Some(c@),
                None => find_by_name(self@, name@) is None,
            },
    {
        let mut li: usize = 0;
        proof {
            assert(self@.subrange(0, self@.len() as int) =~= self@);
        }
        while li < self.libraries.len()
            invariant
                0 <= li <= self.libraries@.len(),
                find_by_name(self@, name@) == find_by_name(
                    self@.subrange(li as int, self@.len() as int),
                    name@,
                ),
            decreases self.libraries@.len() - li,
        {
            let ghost suffix = self@.subrange(li as int, self@.len() as int);
            proof {
                assert(suffix.first() == self@[li as int]);
                assert(suffix.drop_first() =~= self@.subrange(li + 1, self@.len() as int));
            }
            match find_comp_in(&self.libraries[li], name) {
                Some(c) => {
                    return Some(c);
                },
                None => {},
            }
            li = li + 1;
        }
        proof {
            assert(self@.subrange(self@.len() as int, self@.len() as int)
                =~= Seq::<ComponentLibraryV>::empty());
        }
        None
    }

    /// The first library with this name.
    fn get_library(&self, lib_name: &String) -> (r: Option<&ComponentLibrary>)
        ensures
            match r {
                Some(l) => find_lib(self@, lib_name@) == Some(l@),
                None => find_lib(self@, lib_name@) is None,
            },
    {
        let mut li: usize = 0;
        proof {
            assert(self@.subrange(0, self@.len() as int) =~= self@);
        }
        while li < self.libraries.len()
            invariant
                0 <= li <= self.libraries@.len(),
                find_lib(self@, lib_name@) == find_lib(
                    self@.subrange(li as int, self@.len() as int),
                    lib_name@,
                ),
            decreases self.libraries@.len() - li,
        {
            let ghost suffix = self@.subrange(li as int, self@.len() as int);
            proof {
                assert(suffix.first() == self@[li as int]);
                assert(suffix.drop_first() =~= self@.subrange(li + 1, self@.len() as int));
            }
            if self.libraries[li].name == *lib_name {
                return Some(&self.libraries[li]);
            }
            li = li + 1;
        }
        proof {
            assert(self@.subrange(self@.len() as int, self@.len() as int)
                =~= Seq::<ComponentLibraryV>::empty());
        }
        None
    }

    /// The component with this name inside the named library.
    pub fn get_component_by_name_and_lib(&self, name: &String, lib_name: &String) -> (r: Option<
        &Component,
    >)
        ensures
            match r {
                Some(c) => find_in_lib(self@, lib_name@, name@) == Some(c@),
                None => find_in_lib(self@, lib_name@, name@) is None,
            },
    {
        match self.get_library(lib_name) {
            Some(l) => find_comp_in(l, name),
            None => None,
        }
    }

    /// The components of the named library.
    pub fn get_components_from_lib(&self, lib_name: &String) -> (r: Option<&Vec<Component>>)
        ensures
            match r {
                Some(cs) => find_lib(self@, lib_name@) matches Some(l) && l.components
                    == components_view(cs@),
                None => find_lib(self@, lib_name@) is None,
            },
    {
        match self.get_library(lib_name) {
            Some(l) => Some(&l.components),
            None => None,
        }
    }
}

} // verus!
