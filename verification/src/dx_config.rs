//! Where forge keeps its DX artifacts inside a workspace.

use vstd::prelude::*;
use crate::paths::{path_join, path_parent, std_path_join, std_path_parent};

verus! {

/// The DX workspace layout with forge-specific helpers. Every path is a
/// UTF-8 string.
pub struct ForgeDxConfig {
    pub workspace_root: String,
    pub cache_dir: String,
    pub sr_dir: String,
    pub receipts_dir: String,
    pub global_cache_dir: String,
}

/// The serializer directory: a `serializer` directory beside the cache
/// directory, or `<workspace>/.dx/serializer` when the cache directory has
/// no parent.
pub open spec fn serializer_dir_for(workspace_root: Seq<char>, cache_dir: Seq<char>) -> Seq<char> {
    match std_path_parent(cache_dir) {
        Some(parent) => std_path_join(parent, "serializer"@),
        None => std_path_join(std_path_join(workspace_root, ".dx"@), "serializer"@),
    }
}

/// The forge receipts directory, `<workspace>/.dx/receipts/forge`.
pub open spec fn receipts_dir_for(workspace_root: Seq<char>) -> Seq<char> {
    std_path_join(std_path_join(std_path_join(workspace_root, ".dx"@), "receipts"@), "forge"@)
}

impl ForgeDxConfig {
    /// Lays out the forge directories from the workspace root, the cache
    /// directory and the global cache directory of the loaded DX config.
    pub fn from_layout(workspace_root: String, cache_dir: String, global_cache_dir: String) -> (res:
        Self)
        ensures
            res.workspace_root == workspace_root,
            res.cache_dir == cache_dir,
            res.global_cache_dir == global_cache_dir,
            res.sr_dir@ == serializer_dir_for(workspace_root@, cache_dir@),
            res.receipts_dir@ == receipts_dir_for(workspace_root@),
    {
        let sr_dir = match path_parent(cache_dir.as_str()) {
            Some(parent) => path_join(parent.as_str(), "serializer"),
            None => {
                let dx = path_join(workspace_root.as_str(), ".dx");
                path_join(dx.as_str(), "serializer")
            },
        };
        let dx = path_join(workspace_root.as_str(), ".dx");
        let receipts = path_join(dx.as_str(), "receipts");
        let receipts_dir = path_join(receipts.as_str(), "forge");
        ForgeDxConfig { workspace_root, cache_dir, sr_dir, receipts_dir, global_cache_dir }
    }

    /// The `.sr` path of a named artifact: `<sr_dir>/<name>.sr`.
    pub fn sr_path(&self, name: &str) -> (res: String)
        ensures
            res@ == std_path_join(self.sr_dir@, name@ + ".sr"@),
    {
        let mut file = String::from_str(name);
        file.append(".sr");
        path_join(self.sr_dir.as_str(), file.as_str())
    }

    /// The `.machine` path of a named artifact: `<sr_dir>/<name>.machine`.
    pub fn machine_path(&self, name: &str) -> (res: String)
        ensures
            res@ == std_path_join(self.sr_dir@, name@ + ".machine"@),
    {
        let mut file = String::from_str(name);
        file.append(".machine");
        path_join(self.sr_dir.as_str(), file.as_str())
    }

    /// The receipt path of a name: `<receipts_dir>/<name>`.
    pub fn receipt_path(&self, name: &str) -> (res: String)
        ensures
            res@ == std_path_join(self.receipts_dir@, name@),
    {
        path_join(self.receipts_dir.as_str(), name)
    }

    /// The forge directory of the global cache: `<global_cache_dir>/forge`.
    pub fn global_sr_dir(&self) -> (res: String)
        ensures
            res@ == std_path_join(self.global_cache_dir@, "forge"@),
    {
        path_join(self.global_cache_dir.as_str(), "forge")
    }

    /// The `.sr` file that `write_global_sr` writes for a name:
    /// `<global_cache_dir>/forge/<name>.sr`.
    pub fn global_sr_path(&self, name: &str) -> (res: String)
        ensures
            res@ == std_path_join(std_path_join(self.global_cache_dir@, "forge"@), name@ + ".sr"@),
    {
        let dir = self.global_sr_dir();
        let mut file = String::from_str(name);
        file.append(".sr");
        path_join(dir.as_str(), file.as_str())
    }
}

} // verus!
