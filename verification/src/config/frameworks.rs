//! The test frameworks that the configuration knows, each with the flags
//! that link it.

use crate::config::error::{ConfigError, ConfigErrorView};
use crate::config::toml;
use crate::utils::text::{contains_str, skip_chars, starts_with};
use vstd::prelude::*;
use vstd::string::*;

verus! {

/// What is wrong with one flag of a framework, if anything. A flag names a
/// library, with `-l`, or a directory to search, with `-L`; the directory
/// must be among `directories`, those that were found to exist.
pub open spec fn flag_error(flag: Seq<char>, directories: Seq<Seq<char>>) -> Option<
    ConfigErrorView,
> {
    if !"-l"@.is_prefix_of(flag) && !"-L"@.is_prefix_of(flag) {
        Some(ConfigErrorView::InvalidFramework)
    } else if "-L"@.is_prefix_of(flag) && !directories.contains(flag.skip(2)) {
        Some(ConfigErrorView::InvalidFrameworkDir(flag.skip(2)))
    } else {
        None
    }
}

/// What is wrong with the first flag of a list that has anything wrong.
pub open spec fn flags_error(flags: Seq<Seq<char>>, directories: Seq<Seq<char>>) -> Option<
    ConfigErrorView,
>
    decreases flags.len(),
{
    if flags.len() == 0 {
        None
    } else {
        match flags_error(flags.drop_last(), directories) {
            Some(error) => Some(error),
            None => flag_error(flags.last(), directories),
        }
    }
}

/// The frameworks of a list by name, a later one replacing an earlier one of
/// the same name; or what is wrong with the first flag that has anything
/// wrong.
pub open spec fn registry(frameworks: Seq<toml::Framework>, directories: Seq<Seq<char>>) -> Result<
    Map<Seq<char>, Seq<Seq<char>>>,
    ConfigErrorView,
>
    decreases frameworks.len(),
{
    if frameworks.len() == 0 {
        Ok(Map::empty())
    } else {
        match registry(frameworks.drop_last(), directories) {
            Err(error) => Err(error),
            Ok(known) => match flags_error(frameworks.last().flags.deep_view(), directories) {
                Some(error) => Err(error),
                None => Ok(
                    known.insert(frameworks.last().name@, frameworks.last().flags.deep_view()),
                ),
            },
        }
    }
}

/// The directories that the flags of a list of frameworks ask to search, in
/// the order of the flags.
pub open spec fn searched(frameworks: Seq<toml::Framework>) -> Seq<Seq<char>>
    decreases frameworks.len(),
{
    if frameworks.len() == 0 {
        Seq::empty()
    } else {
        searched(frameworks.drop_last()) + searched_by(frameworks.last().flags.deep_view())
    }
}

/// The directories that the flags of one framework ask to search.
pub open spec fn searched_by(flags: Seq<Seq<char>>) -> Seq<Seq<char>>
    decreases flags.len(),
{
    if flags.len() == 0 {
        Seq::empty()
    } else if "-L"@.is_prefix_of(flags.last()) {
        searched_by(flags.drop_last()).push(flags.last().skip(2))
    } else {
        searched_by(flags.drop_last())
    }
}

/// The frameworks as a map from names to flags, built from the entries in
/// the order in which they were added.
pub open spec fn entries_map(entries: Seq<toml::Framework>) -> Map<Seq<char>, Seq<Seq<char>>>
    decreases entries.len(),
{
    if entries.len() == 0 {
        Map::empty()
    } else {
        entries_map(entries.drop_last()).insert(
            entries.last().name@,
            entries.last().flags.deep_view(),
        )
    }
}

#[derive(Debug)]
pub struct FrameworkManager {
    frameworks: Vec<toml::Framework>,
}

impl View for FrameworkManager {
    type V = Map<Seq<char>, Seq<Seq<char>>>;

    closed spec fn view(&self) -> Map<Seq<char>, Seq<Seq<char>>> {
        entries_map(self.frameworks@)
    }
}

fn check_flags(flags: &Vec<String>, directories: &Vec<String>) -> (result: Result<
    (),
    ConfigError,
>)
    ensures
        match result {
            Ok(_) => flags_error(flags.deep_view(), directories.deep_view()) is None,
            Err(error) => flags_error(flags.deep_view(), directories.deep_view()) == Some(error@),
        },
{
    let mut i: usize = 0;
    while i < flags.len()
        invariant
            i <= flags.len(),
            flags_error(flags.deep_view().take(i as int), directories.deep_view()) is None,
        decreases flags.len() - i,
    {
        proof {
            let next = flags.deep_view().take(i + 1);
            assert(next.drop_last() =~= flags.deep_view().take(i as int));
            assert(next.last() == flags[i as int]@);
            reveal_strlit("-L");
            reveal_strlit("-l");
        }
        let flag = flags[i].as_str();
        let library = starts_with(flag, "-l");
        let search = starts_with(flag, "-L");
        if !library && !search {
            proof {
                lemma_first_error(flags.deep_view(), directories.deep_view(), i as int);
            }
            return Err(ConfigError::InvalidFramework);
        }
        if search {
            let path = skip_chars(flag, 2);
            if !contains_str(directories, path.as_str()) {
                proof {
                    lemma_first_error(flags.deep_view(), directories.deep_view(), i as int);
                }
                return Err(ConfigError::InvalidFrameworkDir(path));
            }
        }
        i = i + 1;
    }
    proof {
        assert(flags.deep_view().take(i as int) =~= flags.deep_view());
    }
    Ok(())
}

/// Where the flags before a position have nothing wrong and the flag at it
/// has, the error of the list is that of this flag.
proof fn lemma_first_error(flags: Seq<Seq<char>>, directories: Seq<Seq<char>>, at: int)
    requires
        0 <= at < flags.len(),
        flags_error(flags.take(at), directories) is None,
        flag_error(flags[at], directories) is Some,
    ensures
        flags_error(flags, directories) == flag_error(flags[at], directories),
    decreases flags.len(),
{
    if at == flags.len() - 1 {
        assert(flags.drop_last() =~= flags.take(at));
    } else {
        assert(flags.drop_last().take(at) =~= flags.take(at));
        lemma_first_error(flags.drop_last(), directories, at);
    }
}

/// Where the frameworks before a position are in order and the one at it has
/// a flag with something wrong, the list has that error.
proof fn lemma_first_bad_framework(
    frameworks: Seq<toml::Framework>,
    directories: Seq<Seq<char>>,
    at: int,
)
    requires
        0 <= at < frameworks.len(),
        registry(frameworks.take(at), directories) is Ok,
        flags_error(frameworks[at].flags.deep_view(), directories) is Some,
    ensures
        registry(frameworks, directories) == Err::<Map<Seq<char>, Seq<Seq<char>>>, ConfigErrorView>(
            flags_error(frameworks[at].flags.deep_view(), directories)->Some_0,
        ),
    decreases frameworks.len(),
{
    if at == frameworks.len() - 1 {
        assert(frameworks.drop_last() =~= frameworks.take(at));
    } else {
        assert(frameworks.drop_last().take(at) =~= frameworks.take(at));
        lemma_first_bad_framework(frameworks.drop_last(), directories, at);
    }
}

/// A list of frameworks in which no flag has anything wrong is known as the
/// map of its entries.
proof fn lemma_registry_is_entries(frameworks: Seq<toml::Framework>, directories: Seq<Seq<char>>)
    requires
        registry(frameworks, directories) is Ok,
    ensures
        registry(frameworks, directories) == Ok::<Map<Seq<char>, Seq<Seq<char>>>, ConfigErrorView>(
            entries_map(frameworks),
        ),
    decreases frameworks.len(),
{
    if frameworks.len() > 0 {
        lemma_registry_is_entries(frameworks.drop_last(), directories);
    }
}

impl FrameworkManager {
    /// Takes up the frameworks of a configuration, if it states any.
    /// `directories` are the directories, among those that the flags ask to
    /// search, that were found to exist. Every flag must begin with `-l` or
    /// `-L`, and what follows `-L` must be one of `directories`; the first
    /// flag that fails either is reported.
    pub fn new(toml: Option<toml::Frameworks>, directories: &Vec<String>) -> (result: Result<
        Self,
        ConfigError,
    >)
        ensures
            match result {
                Ok(manager) => match toml {
                    Some(list) => registry(list.0@, directories.deep_view()) == Ok::<
                        Map<Seq<char>, Seq<Seq<char>>>,
                        ConfigErrorView,
                    >(manager@),
                    None => manager@ == Map::<Seq<char>, Seq<Seq<char>>>::empty(),
                },
                Err(error) => toml is Some && registry(toml->Some_0.0@, directories.deep_view())
                    == Err::<Map<Seq<char>, Seq<Seq<char>>>, ConfigErrorView>(error@),
            },
    {
        match toml {
            None => Ok(Self { frameworks: Vec::new() }),
            Some(list) => {
                let frameworks = list.0;
                let mut i: usize = 0;
                while i < frameworks.len()
                    invariant
                        i <= frameworks.len(),
                        toml == Some(list),
                        list.0 == frameworks,
                        registry(frameworks@.take(i as int), directories.deep_view()) is Ok,
                    decreases frameworks.len() - i,
                {
                    proof {
                        let next = frameworks@.take(i + 1);
                        assert(next.drop_last() =~= frameworks@.take(i as int));
                        assert(next.last() == frameworks@[i as int]);
                    }
                    match check_flags(&frameworks[i].flags, directories) {
                        Ok(()) => {},
                        Err(error) => {
                            proof {
                                lemma_first_bad_framework(
                                    frameworks@,
                                    directories.deep_view(),
                                    i as int,
                                );
                            }
                            return Err(error);
                        },
                    }
                    i = i + 1;
                }
                proof {
                    assert(frameworks@.take(i as int) =~= frameworks@);
                    lemma_registry_is_entries(frameworks@, directories.deep_view());
                }
                Ok(Self { frameworks })
            },
        }
    }

    /// The directories that the flags of a configuration ask to search, for
    /// the caller to look for.
    pub fn search_paths(toml: &Option<toml::Frameworks>) -> (paths: Vec<String>)
        ensures
            paths.deep_view() == match toml {
                Some(list) => searched(list.0@),
                None => Seq::<Seq<char>>::empty(),
            },
    {
        let mut paths: Vec<String> = Vec::new();
        proof {
            assert(paths.deep_view() =~= Seq::<Seq<char>>::empty());
        }
        match toml {
            None => {},
            Some(list) => {
                let mut i: usize = 0;
                while i < list.0.len()
                    invariant
                        i <= list.0.len(),
                        paths.deep_view() == searched(list.0@.take(i as int)),
                    decreases list.0.len() - i,
                {
                    let flags = &list.0[i].flags;
                    let ghost before = paths.deep_view();
                    let mut j: usize = 0;
                    while j < flags.len()
                        invariant
                            j <= flags.len(),
                            paths.deep_view() == before + searched_by(
                                flags.deep_view().take(j as int),
                            ),
                        decreases flags.len() - j,
                    {
                        proof {
                            let next = flags.deep_view().take(j + 1);
                            assert(next.drop_last() =~= flags.deep_view().take(j as int));
                            assert(next.last() == flags[j as int]@);
                            reveal_strlit("-L");
                        }
                        let flag = flags[j].as_str();
                        if starts_with(flag, "-L") {
                            let ghost so_far = paths.deep_view();
                            paths.push(skip_chars(flag, 2));
                            proof {
                                assert(paths.deep_view() =~= so_far.push(flag@.skip(2)));
                                assert(so_far.push(flag@.skip(2)) =~= before + searched_by(
                                    flags.deep_view().take(j as int),
                                ).push(flag@.skip(2)));
                            }
                        }
                        j = j + 1;
                    }
                    proof {
                        assert(flags.deep_view().take(j as int) =~= flags.deep_view());
                        let next = list.0@.take(i + 1);
                        assert(next.drop_last() =~= list.0@.take(i as int));
                        assert(next.last() == list.0@[i as int]);
                    }
                    i = i + 1;
                }
                proof {
                    assert(list.0@.take(i as int) =~= list.0@);
                }
            },
        }
        paths
    }

    /// The flags of the framework of that name, if it is known.
    pub fn get(&self, name: &str) -> (flags: Option<&Vec<String>>)
        ensures
            match flags {
                Some(flags) => self@.contains_key(name@) && self@[name@] == flags.deep_view(),
                None => !self@.contains_key(name@),
            },
    {
        let mut i: usize = self.frameworks.len();
        while i > 0
            invariant
                i <= self.frameworks.len(),
                forall|k: int| i <= k < self.frameworks.len() ==> self.frameworks[k].name@ != name@,
            decreases i,
        {
            i = i - 1;
            if crate::utils::text::str_eq(self.frameworks[i].name.as_str(), name) {
                proof {
                    lemma_last_entry_wins(self.frameworks@, i as int);
                }
                return Some(&self.frameworks[i].flags);
            }
        }
        proof {
            lemma_unknown_name(self.frameworks@, name@);
        }
        None
    }
}

/// The entry of a name that no later entry bears decides what the name
/// stands for.
proof fn lemma_last_entry_wins(entries: Seq<toml::Framework>, at: int)
    requires
        0 <= at < entries.len(),
        forall|k: int| at < k < entries.len() ==> entries[k].name@ != entries[at].name@,
    ensures
        entries_map(entries).contains_key(entries[at].name@),
        entries_map(entries)[entries[at].name@] == entries[at].flags.deep_view(),
    decreases entries.len(),
{
    if at < entries.len() - 1 {
        lemma_last_entry_wins(entries.drop_last(), at);
    }
}

/// A name that no entry bears is not known.
proof fn lemma_unknown_name(entries: Seq<toml::Framework>, name: Seq<char>)
    requires
        forall|k: int| 0 <= k < entries.len() ==> entries[k].name@ != name,
    ensures
        !entries_map(entries).contains_key(name),
    decreases entries.len(),
{
    if entries.len() > 0 {
        lemma_unknown_name(entries.drop_last(), name);
    }
}

} // verus!
