//! The database management system: a root folder with one folder per database,
//! and the schema of each database.
pub mod bplus_tree;
pub mod error;
pub mod format;

use vstd::prelude::*;

use crate::dbms::error::DBFormatLoadErrorV;
use crate::dbms::format::versions::names_distinct;
use crate::dbms::format::versions::v3::DBFormatV3V;
use crate::dbms::format::{
    frame_bytes, frame_decoded, lemma_db_format_roundtrip, upgraded, DBFormat, VersionedDBFormat,
    DB_FORMAT_CURRENT_VERSION,
};
use crate::util::checksum::xxh3_64_of;

verus! {

/// The schema that `schemas` lists under `name`, if any.
pub open spec fn schema_named(schemas: Seq<(Seq<char>, DBFormatV3V)>, name: Seq<char>) -> Option<
    DBFormatV3V,
> {
    if exists|i: int| 0 <= i < schemas.len() && #[trigger] schemas[i].0 == name {
        Some(schemas[choose|i: int| 0 <= i < schemas.len() && #[trigger] schemas[i].0 == name].1)
    } else {
        None
    }
}

/// What looking up the root folder of a DBMS found.
#[derive(Debug, Clone, Copy, PartialEq, Eq, Structural)]
pub enum RootLookup {
    /// The folder exists
    Found,
    /// No such folder
    NotFound,
    /// The lookup failed otherwise
    OtherError,
}

/// What to do about the root folder of a DBMS.
#[derive(Debug, Clone, Copy, PartialEq, Eq, Structural)]
pub enum RootStep {
    /// Use the folder that was found
    UseRoot,
    /// Create the folder, then use it
    CreateRoot,
    /// Fail: the folder does not exist and was not to be created
    RootDoesNotExist,
    /// Fail with the error the lookup met
    Fail,
}

/// The step that a lookup of the root folder calls for, where `create` says
/// whether a missing folder is to be created.
pub open spec fn root_step_of(lookup: RootLookup, create: bool) -> RootStep {
    match lookup {
        RootLookup::Found => RootStep::UseRoot,
        RootLookup::NotFound => if create {
            RootStep::CreateRoot
        } else {
            RootStep::RootDoesNotExist
        },
        RootLookup::OtherError => RootStep::Fail,
    }
}

/// Decides what to do about the root folder of a new DBMS once it has been
/// looked up: a folder that is found is used, a missing one is created only
/// where `create` asks for it, and any other failure is passed on.
pub fn root_step(lookup: RootLookup, create: bool) -> (r: RootStep)
    ensures
        r == root_step_of(lookup, create),
{
    match lookup {
        RootLookup::Found => RootStep::UseRoot,
        RootLookup::NotFound => if create {
            RootStep::CreateRoot
        } else {
            RootStep::RootDoesNotExist
        },
        RootLookup::OtherError => RootStep::Fail,
    }
}

/// A DBMS rooted at a folder, with the schemas of the databases it holds.
#[derive(Debug)]
pub struct DBMS {
    root: std::path::PathBuf,
    /// Database names, each with its schema; no name occurs twice
    db_schemas: Vec<(String, DBFormat)>,
}

impl DBMS {
    #[verifier::type_invariant]
    spec fn inv(self) -> bool {
        names_distinct(self.db_schemas.deep_view())
    }

    /// The root folder.
    pub closed spec fn root_path(self) -> std::path::PathBuf {
        self.root
    }

    /// The databases, each with its schema, in the order they were added.
    pub closed spec fn schemas(self) -> Seq<(Seq<char>, DBFormatV3V)> {
        self.db_schemas.deep_view()
    }

    /// A DBMS rooted at `root`, a folder that exists, with no schema loaded yet.
    pub fn with_root(root: std::path::PathBuf) -> (r: DBMS)
        ensures
            r.root_path() == root,
            r.schemas() == Seq::<(Seq<char>, DBFormatV3V)>::empty(),
    {
        let db_schemas: Vec<(String, DBFormat)> = Vec::new();
        assert(db_schemas.deep_view() =~= Seq::<(Seq<char>, DBFormatV3V)>::empty());
        DBMS { root, db_schemas }
    }

    /// The root folder.
    pub fn root(&self) -> (r: &std::path::PathBuf)
        ensures
            *r == self.root_path(),
    {
        &self.root
    }

    /// Records the loaded schema of database `db_name`, in place of any schema
    /// it had.
    pub fn insert_schema(&mut self, db_name: String, db_format: DBFormat)
        ensures
            final(self).root_path() == old(self).root_path(),
            names_distinct(final(self).schemas()),
            schema_named(final(self).schemas(), db_name@) == Some(db_format.deep_view()),
            forall|other: Seq<char>|
                other != db_name@ ==> schema_named(final(self).schemas(), other) == schema_named(
                    old(self).schemas(),
                    other,
                ),
            final(self).schemas().len() == old(self).schemas().len() + if schema_named(
                old(self).schemas(),
                db_name@,
            ) is Some {
                0int
            } else {
                1int
            },
    {
        proof {
            use_type_invariant(&*self);
        }
        let ghost old_s = self.db_schemas.deep_view();
        let mut schemas: Vec<(String, DBFormat)> = Vec::new();
        std::mem::swap(&mut schemas, &mut self.db_schemas);
        let mut i: usize = 0;
        while i < schemas.len()
            invariant
                i <= schemas@.len(),
                schemas.deep_view() == old_s,
                forall|j: int| 0 <= j < i ==> #[trigger] old_s[j].0 != db_name@,
            ensures
                i <= schemas@.len(),
                schemas.deep_view() == old_s,
                forall|j: int| 0 <= j < i ==> #[trigger] old_s[j].0 != db_name@,
                i < schemas@.len() ==> old_s[i as int].0 == db_name@,
            decreases schemas@.len() - i,
        {
            if schemas[i].0 == db_name {
                break;
            }
            i += 1;
        }
        let ghost entry = (db_name@, db_format.deep_view());
        if i < schemas.len() {
            let ghost at = i as int;
            assert(old_s[at].0 == db_name@);
            schemas.set(i, (db_name, db_format));
            proof {
                let new_s = schemas.deep_view();
                assert(new_s =~= old_s.update(at, entry));
                assert forall|other: Seq<char>| other != db_name@ implies schema_named(new_s, other)
                    == schema_named(old_s, other) by {
                    if exists|k: int| 0 <= k < new_s.len() && #[trigger] new_s[k].0 == other {
                        let k = choose|k: int| 0 <= k < new_s.len() && #[trigger] new_s[k].0 == other;
                        assert(old_s[k].0 == other);
                    }
                    if exists|k: int| 0 <= k < old_s.len() && #[trigger] old_s[k].0 == other {
                        let k = choose|k: int| 0 <= k < old_s.len() && #[trigger] old_s[k].0 == other;
                        assert(new_s[k].0 == other);
                    }
                }
                assert(new_s[at].0 == db_name@);
                assert(schema_named(old_s, db_name@) is Some);
            }
        } else {
            schemas.push((db_name, db_format));
            proof {
                let new_s = schemas.deep_view();
                assert(new_s =~= old_s.push(entry));
                let last = old_s.len() as int;
                assert(new_s[last].0 == db_name@);
                assert forall|other: Seq<char>| other != db_name@ implies schema_named(new_s, other)
                    == schema_named(old_s, other) by {
                    if exists|k: int| 0 <= k < new_s.len() && #[trigger] new_s[k].0 == other {
                        let k = choose|k: int| 0 <= k < new_s.len() && #[trigger] new_s[k].0 == other;
                        assert(old_s[k].0 == other);
                    }
                    if exists|k: int| 0 <= k < old_s.len() && #[trigger] old_s[k].0 == other {
                        let k = choose|k: int| 0 <= k < old_s.len() && #[trigger] old_s[k].0 == other;
                        assert(new_s[k].0 == other);
                    }
                }
            }
        }
        self.db_schemas = schemas;
    }

    /// What saving the schemas writes: each database's name, with its schema,
    /// in the order of [`DBMS::schemas`]. Each schema goes to the file
    /// `db_fmt` in the folder of that name under the root.
    pub fn save_schemas(&self) -> (r: Vec<(String, &DBFormat)>)
        ensures
            r@.len() == self.schemas().len(),
            forall|i: int|
                0 <= i < r@.len() ==> {
                    &&& (#[trigger] r@[i]).0@ == self.schemas()[i].0
                    &&& r@[i].1.deep_view() == self.schemas()[i].1
                },
    {
        let mut r: Vec<(String, &DBFormat)> = Vec::new();
        let mut i: usize = 0;
        while i < self.db_schemas.len()
            invariant
                i <= self.db_schemas@.len(),
                r@.len() == i,
                forall|j: int|
                    0 <= j < i ==> {
                        &&& (#[trigger] r@[j]).0@ == self.schemas()[j].0
                        &&& r@[j].1.deep_view() == self.schemas()[j].1
                    },
            decreases self.db_schemas@.len() - i,
        {
            let (db_name, db_format) = &self.db_schemas[i];
            r.push((db_name.clone(), db_format));
            i += 1;
        }
        r
    }
}

/// Saving and loading again gives each database its schema back. The file
/// saved for the database at `i` of `d.schemas()` is a frame of the current
/// version around the encoded schema `data`; reading it back gives that
/// version and `data` again, and the schema that `data` decodes to in that
/// version, being the saved one, is loaded unchanged.
pub proof fn lemma_saved_schemas_load_back(
    d: DBMS,
    i: int,
    data: Seq<u8>,
    decoded: VersionedDBFormat,
)
    requires
        0 <= i < d.schemas().len(),
        data.len() <= u64::MAX,
        decoded matches VersionedDBFormat::V3(g) && g.deep_view() == d.schemas()[i].1,
    ensures
        frame_decoded(frame_bytes(DB_FORMAT_CURRENT_VERSION, xxh3_64_of(data), data)) == Ok::<
            _,
            DBFormatLoadErrorV,
        >((DB_FORMAT_CURRENT_VERSION, data)),
        upgraded(decoded) == d.schemas()[i].1,
{
    lemma_db_format_roundtrip(data);
}

} // verus!
