//! Selects the storage roots of a node from its role and its base path.

use crate::path::{NodePath, NodePathView};
use crate::policy::Role;
use vstd::prelude::*;

verus! {

/// The directory of the storage layout that was supported first.
pub const ROCKSDB_DIR: &'static str = "db";

/// The directory of the storage layout that was added later.
pub const PARITYDB_DIR: &'static str = "paritydb";

/// The directory for a node that keeps headers only.
pub const LIGHT_DIR: &'static str = "light";

/// The directory for a node that keeps the full state.
pub const FULL_DIR: &'static str = "full";

/// Two candidate storage roots, one per on-disk layout, and a cache-size
/// hint. Which of the two is opened, or created where neither exists, is
/// left to the storage engine.
#[derive(Debug)]
pub struct DatabaseSource {
    pub paritydb_path: NodePath,
    pub rocksdb_path: NodePath,
    pub cache_size: usize,
}

/// The mathematical value of a [`DatabaseSource`].
pub struct DatabaseSourceView {
    pub paritydb_path: NodePathView,
    pub rocksdb_path: NodePathView,
    pub cache_size: usize,
}

impl View for DatabaseSource {
    type V = DatabaseSourceView;

    open spec fn view(&self) -> DatabaseSourceView {
        DatabaseSourceView {
            paritydb_path: self.paritydb_path@,
            rocksdb_path: self.rocksdb_path@,
            cache_size: self.cache_size,
        }
    }
}

/// The directory name that stands for `role`: a light node has its own,
/// a full node and an authority share one.
pub open spec fn role_dir(role: Role) -> Seq<char> {
    match role {
        Role::Light => LIGHT_DIR@,
        Role::Full | Role::Authority => FULL_DIR@,
    }
}

/// The storage roots below `base_path` for a node of the given role.
pub open spec fn database_source(
    base_path: NodePathView,
    cache_size: usize,
    role: Role,
) -> DatabaseSourceView {
    DatabaseSourceView {
        paritydb_path: base_path.join(PARITYDB_DIR@).join(role_dir(role)),
        rocksdb_path: base_path.join(ROCKSDB_DIR@).join(role_dir(role)),
        cache_size,
    }
}

/// Selects the storage roots of a node: `db/<role>` and `paritydb/<role>`
/// below the base path, where `<role>` is `light` for a light node and
/// `full` for a full node or an authority. The cache size is passed on.
pub fn database_config(base_path: &NodePath, cache_size: usize, role: &Role) -> (source:
    DatabaseSource)
    ensures
        source@ == database_source(base_path@, cache_size, *role),
{
    let role_dir = match role {
        Role::Light => LIGHT_DIR,
        Role::Full | Role::Authority => FULL_DIR,
    };
    let rocksdb_path = base_path.join(ROCKSDB_DIR).join(role_dir);
    let paritydb_path = base_path.join(PARITYDB_DIR).join(role_dir);
    DatabaseSource { paritydb_path, rocksdb_path, cache_size }
}

/// Both storage roots lie below the base path and end in the role's
/// directory: `light` for a light node, `full` for a full node and for an
/// authority, and the two names differ. The cache size is the one that was
/// passed in.
pub proof fn lemma_database_paths_name_the_role(
    base_path: NodePathView,
    cache_size: usize,
    role: Role,
)
    ensures
        database_source(base_path, cache_size, role).cache_size == cache_size,
        database_source(base_path, cache_size, role).rocksdb_path.is_under(base_path),
        database_source(base_path, cache_size, role).paritydb_path.is_under(base_path),
        role == Role::Light ==> {
            &&& database_source(base_path, cache_size, role).rocksdb_path.has_segment(LIGHT_DIR@)
            &&& database_source(base_path, cache_size, role).paritydb_path.has_segment(LIGHT_DIR@)
        },
        role == Role::Full || role == Role::Authority ==> {
            &&& database_source(base_path, cache_size, role).rocksdb_path.has_segment(FULL_DIR@)
            &&& database_source(base_path, cache_size, role).paritydb_path.has_segment(FULL_DIR@)
        },
        database_source(base_path, cache_size, role).rocksdb_path.segments.last() == role_dir(role),
        database_source(base_path, cache_size, role).paritydb_path.segments.last() == role_dir(
            role,
        ),
        role_dir(Role::Light) != role_dir(Role::Full),
        role_dir(Role::Authority) == role_dir(Role::Full),
{
    reveal_strlit("light");
    reveal_strlit("full");
    assert(LIGHT_DIR@.len() == 5 && FULL_DIR@.len() == 4);
    let source = database_source(base_path, cache_size, role);
    let n = base_path.segments.len() as int;
    assert(source.rocksdb_path.segments[n + 1] == role_dir(role));
    assert(source.paritydb_path.segments[n + 1] == role_dir(role));
}

} // verus!
