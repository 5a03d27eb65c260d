//! The catalog: the configured engines, in order, and the default engine's name.
use vstd::prelude::*;

use crate::engine::Engine;
use crate::error::SearchError;
use std::path::PathBuf;

verus! {

/// A file path, carried through the catalog as it is; nothing inside it is read.
#[verifier::external_type_specification]
#[verifier::external_body]
pub struct ExPathBuf(std::path::PathBuf);

/// The engines of a catalog without those named `name`, order kept.
pub open spec fn without_name(engines: Seq<Engine>, name: Seq<char>) -> Seq<Engine> {
    engines.filter(|e: Engine| e.name@ != name)
}

/// The engines of a catalog without those identified by `uuid`, order kept.
pub open spec fn without_uuid(engines: Seq<Engine>, uuid: u128) -> Seq<Engine> {
    engines.filter(|e: Engine| e.uuid != uuid)
}

/// The names of the engines, in catalog order.
pub open spec fn names_of(engines: Seq<Engine>) -> Seq<Seq<char>> {
    engines.map_values(|e: Engine| e.name@)
}

/// The first engine, in catalog order, named `name`.
pub open spec fn first_named(engines: Seq<Engine>, name: Seq<char>) -> Option<Engine>
    decreases engines.len(),
{
    if engines.len() == 0 {
        None
    } else if engines[0].name@ == name {
        Some(engines[0])
    } else {
        first_named(engines.drop_first(), name)
    }
}

/// Some engine is named `name` exactly when a first one is.
pub proof fn lemma_first_named_exists(engines: Seq<Engine>, name: Seq<char>)
    ensures
        first_named(engines, name) is Some <==> names_of(engines).contains(name),
        first_named(engines, name) matches Some(e) ==> e.name@ == name,
    decreases engines.len(),
{
    if engines.len() > 0 {
        let rest = engines.drop_first();
        lemma_first_named_exists(rest, name);
        if engines[0].name@ == name {
            assert(names_of(engines)[0] == name);
        } else if names_of(engines).contains(name) {
            let i = choose|i: int| 0 <= i < names_of(engines).len() && names_of(engines)[i] == name;
            assert(names_of(rest)[i - 1] == name);
        } else if names_of(rest).contains(name) {
            let i = choose|i: int| 0 <= i < names_of(rest).len() && names_of(rest)[i] == name;
            assert(names_of(engines)[i + 1] == name);
        }
    }
}

proof fn lemma_filter_step(s: Seq<Engine>, i: int, pred: spec_fn(Engine) -> bool)
    requires
        0 <= i < s.len(),
    ensures
        s.subrange(0, i + 1).filter(pred) == if pred(s[i]) {
            s.subrange(0, i).filter(pred).push(s[i])
        } else {
            s.subrange(0, i).filter(pred)
        },
{
    reveal(Seq::filter);
    assert(s.subrange(0, i + 1).drop_last() =~= s.subrange(0, i));
}

proof fn lemma_without_name_step(s: Seq<Engine>, i: int, name: Seq<char>)
    requires
        0 <= i < s.len(),
    ensures
        without_name(s.subrange(0, i + 1), name) == if s[i].name@ != name {
            without_name(s.subrange(0, i), name).push(s[i])
        } else {
            without_name(s.subrange(0, i), name)
        },
{
    reveal(Seq::filter);
    let t = s.subrange(0, i + 1);
    assert(t.drop_last() =~= s.subrange(0, i));
    assert(t.last() == s[i]);
}

/// Removing a name that no engine carries keeps every engine, in order, so
/// the count is unchanged.
pub proof fn lemma_remove_absent_name_keeps_engines(engines: Seq<Engine>, name: Seq<char>)
    requires
        !names_of(engines).contains(name),
    ensures
        without_name(engines, name) == engines,
        without_name(engines, name).len() == engines.len(),
    decreases engines.len(),
{
    reveal(Seq::filter);
    if engines.len() > 0 {
        let init = engines.drop_last();
        if names_of(init).contains(name) {
            let i = choose|i: int| 0 <= i < names_of(init).len() && names_of(init)[i] == name;
            assert(names_of(engines)[i] == name);
        }
        if engines.last().name@ == name {
            assert(names_of(engines)[engines.len() - 1] == name);
        }
        lemma_remove_absent_name_keeps_engines(init, name);
        assert(init.push(engines.last()) =~= engines);
    }
}

/// The whole configuration: where it is stored, the default engine's name and
/// the engines.
pub struct Configuration {
    /// The file the catalog is loaded from and saved to; not part of what is
    /// stored.
    pub file_path: PathBuf,
    /// The name of the default engine, which need not name an engine.
    pub default_engine: Option<String>,
    /// The engines, in the order they were added.
    pub engines: Option<Vec<Engine>>,
}

impl Configuration {
    /// The engines as a sequence; an absent list is empty.
    pub open spec fn engine_list(&self) -> Seq<Engine> {
        match self.engines {
            Some(v) => v@,
            None => Seq::empty(),
        }
    }

    /// A configuration made of the given parts.
    pub fn new(file_path: PathBuf, default_engine: Option<String>, engines: Option<Vec<Engine>>) -> (r:
        Configuration)
        ensures
            r.file_path == file_path,
            r.default_engine == default_engine,
            r.engines == engines,
    {
        Configuration { file_path, default_engine, engines }
    }

    /// A configuration bound to `file_path`, with no engines and no default.
    pub fn empty(file_path: PathBuf) -> (r: Configuration)
        ensures
            r.file_path == file_path,
            r.default_engine is None,
            r.engines is None,
            r.engine_list().len() == 0,
    {
        Configuration { file_path, default_engine: None, engines: None }
    }

    /// Adds an engine at the end, also where one of that name exists.
    pub fn push(&mut self, engine: Engine)
        ensures
            final(self).engines is Some,
            final(self).engine_list() == old(self).engine_list().push(engine),
            final(self).default_engine == old(self).default_engine,
            final(self).file_path == old(self).file_path,
    {
        let mut list = match self.engines.take() {
            Some(v) => v,
            None => Vec::new(),
        };
        list.push(engine);
        self.engines = Some(list);
    }

    /// Binds the configuration to another file.
    pub fn update_path(&mut self, new: PathBuf)
        ensures
            final(self).file_path == new,
            final(self).default_engine == old(self).default_engine,
            final(self).engines == old(self).engines,
    {
        self.file_path = new;
    }

    /// Removes every engine named `name`. Fails on a catalog without engines;
    /// otherwise succeeds, also where no engine has that name.
    pub fn remove_where_name(&mut self, name: &str) -> (r: Result<(), SearchError>)
        ensures
            old(self).engine_list().len() == 0 ==> r == Err::<(), SearchError>(
                SearchError::EmptyCatalog,
            ) && *final(self) == *old(self),
            old(self).engine_list().len() > 0 ==> r is Ok && final(self).engines is Some
                && final(self).engine_list() == without_name(old(self).engine_list(), name@),
            final(self).default_engine == old(self).default_engine,
            final(self).file_path == old(self).file_path,
    {
        let n = self.engine_count();
        if n == 0 {
            return Err(SearchError::EmptyCatalog);
        }
        let target = name.to_owned();
        let list = match self.engines.take() {
            Some(v) => v,
            None => Vec::new(),
        };
        let ghost all = list@;
        let mut kept: Vec<Engine> = Vec::new();
        let mut i: usize = 0;
        while i < list.len()
            invariant
                0 <= i <= list.len(),
                list@ == all,
                target@ == name@,
                kept@ == without_name(all.subrange(0, i as int), name@),
            decreases list.len() - i,
        {
            proof {
                lemma_without_name_step(all, i as int, name@);
            }
            if !(list[i].name == target) {
                kept.push(list[i].clone());
            }
            i = i + 1;
        }
        assert(all.subrange(0, all.len() as int) =~= all);
        self.engines = Some(kept);
        Ok(())
    }

    /// Removes every engine identified by `uuid`. Fails on a catalog without
    /// engines; otherwise succeeds, also where no engine has that identifier.
    pub fn remove_where_uuid(&mut self, uuid: u128) -> (r: Result<(), SearchError>)
        ensures
            old(self).engine_list().len() == 0 ==> r == Err::<(), SearchError>(
                SearchError::EmptyCatalog,
            ) && *final(self) == *old(self),
            old(self).engine_list().len() > 0 ==> r is Ok && final(self).engines is Some
                && final(self).engine_list() == without_uuid(old(self).engine_list(), uuid),
            final(self).default_engine == old(self).default_engine,
            final(self).file_path == old(self).file_path,
    {
        let n = self.engine_count();
        if n == 0 {
            return Err(SearchError::EmptyCatalog);
        }
        let list = match self.engines.take() {
            Some(v) => v,
            None => Vec::new(),
        };
        let ghost all = list@;
        let mut kept: Vec<Engine> = Vec::new();
        let mut i: usize = 0;
        while i < list.len()
            invariant
                0 <= i <= list.len(),
                list@ == all,
                kept@ == without_uuid(all.subrange(0, i as int), uuid),
            decreases list.len() - i,
        {
            proof {
                lemma_filter_step(all, i as int, |e: Engine| e.uuid != uuid);
            }
            if list[i].uuid != uuid {
                kept.push(list[i].clone());
            }
            i = i + 1;
        }
        assert(all.subrange(0, all.len() as int) =~= all);
        self.engines = Some(kept);
        Ok(())
    }

    /// Removes the engine at position `index`. Fails where there is none.
    pub fn remove_at(&mut self, index: usize) -> (r: Result<(), SearchError>)
        ensures
            index >= old(self).engine_list().len() ==> r == Err::<(), SearchError>(
                SearchError::IndexOutOfBounds,
            ) && *final(self) == *old(self),
            index < old(self).engine_list().len() ==> r is Ok && final(self).engines is Some
                && final(self).engine_list() == old(self).engine_list().remove(index as int),
            final(self).default_engine == old(self).default_engine,
            final(self).file_path == old(self).file_path,
    {
        let n = self.engine_count();
        if index >= n {
            return Err(SearchError::IndexOutOfBounds);
        }
        let mut list = match self.engines.take() {
            Some(v) => v,
            None => Vec::new(),
        };
        list.remove(index);
        self.engines = Some(list);
        Ok(())
    }

    /// The number of engines.
    pub fn engine_count(&self) -> (r: usize)
        ensures
            r == self.engine_list().len(),
    {
        match &self.engines {
            Some(v) => v.len(),
            None => 0,
        }
    }

    /// The engines' names, in catalog order.
    pub fn names(&self) -> (r: Vec<String>)
        ensures
            r@.map_values(|s: String| s@) == names_of(self.engine_list()),
    {
        let mut out: Vec<String> = Vec::new();
        match &self.engines {
            Some(list) => {
                let mut i: usize = 0;
                while i < list.len()
                    invariant
                        0 <= i <= list.len(),
                        self.engine_list() == list@,
                        out@.len() == i,
                        out@.map_values(|s: String| s@) == names_of(list@.subrange(0, i as int)),
                    decreases list.len() - i,
                {
                    let ghost before = out@;
                    out.push(list[i].name.clone());
                    assert forall|j: int| 0 <= j <= i implies #[trigger] out@[j]@ == list@.subrange(
                        0,
                        i + 1,
                    )[j].name@ by {
                        if j < i {
                            assert(before.map_values(|s: String| s@)[j] == names_of(
                                list@.subrange(0, i as int),
                            )[j]);
                        }
                    }
                    assert(out@.map_values(|s: String| s@) =~= names_of(
                        list@.subrange(0, i + 1),
                    ));
                    i = i + 1;
                }
                assert(list@.subrange(0, list.len() as int) =~= list@);
            },
            None => {
                assert(out@.map_values(|s: String| s@) =~= names_of(self.engine_list()));
            },
        }
        out
    }

    /// The first engine, in catalog order, named `name`.
    pub fn where_name(&self, name: String) -> (r: Result<Engine, SearchError>)
        ensures
            match first_named(self.engine_list(), name@) {
                Some(e) => r == Ok::<Engine, SearchError>(e),
                None => r == Err::<Engine, SearchError>(SearchError::NotFound),
            },
    {
        match &self.engines {
            Some(list) => {
                let mut i: usize = 0;
                assert(list@.skip(0) =~= list@);
                while i < list.len()
                    invariant
                        0 <= i <= list.len(),
                        self.engine_list() == list@,
                        first_named(list@, name@) == first_named(list@.skip(i as int), name@),
                    decreases list.len() - i,
                {
                    if list[i].name == name {
                        return Ok(list[i].clone());
                    }
                    assert(list@.skip(i as int).drop_first() =~= list@.skip(i + 1));
                    i = i + 1;
                }
                Err(SearchError::NotFound)
            },
            None => Err(SearchError::NotFound),
        }
    }

    /// The engine named by the default, where the default is set and names
    /// an engine.
    pub fn default(&self) -> (r: Option<Engine>)
        ensures
            r == match self.default_engine {
                Some(d) => first_named(self.engine_list(), d@),
                None => None,
            },
    {
        match &self.default_engine {
            Some(d) => match self.where_name(d.clone()) {
                Ok(e) => Some(e),
                Err(_) => None,
            },
            None => None,
        }
    }

    /// Makes `name` the default, where an engine of that name exists;
    /// otherwise fails and changes nothing.
    pub fn set_default(&mut self, name: String) -> (r: Result<(), SearchError>)
        ensures
            names_of(old(self).engine_list()).contains(name@) ==> r is Ok
                && final(self).default_engine == Some(name),
            !names_of(old(self).engine_list()).contains(name@) ==> r == Err::<(), SearchError>(
                SearchError::NotFound,
            ) && final(self).default_engine == old(self).default_engine,
            final(self).engines == old(self).engines,
            final(self).file_path == old(self).file_path,
    {
        proof {
            lemma_first_named_exists(self.engine_list(), name@);
        }
        match self.where_name(name.clone()) {
            Ok(_) => {
                self.default_engine = Some(name);
                Ok(())
            },
            Err(_) => Err(SearchError::NotFound),
        }
    }
}

} // verus!
