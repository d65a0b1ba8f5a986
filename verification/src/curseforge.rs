//! The CurseForge catalog backend: the data shapes its wire format
//! maps to, and the decision logic of search and download.  The
//! service keys games and loaders by number; identifiers arrive as
//! numbers and travel through the session as their decimal text.

use crate::mc_mod::{contains_string, listed, MinecraftMod, ModLoader, ModStatus};
use crate::query::{build_url, param_views, url_with_params};
use crate::text::{dec_rep, u32_string};
use vstd::prelude::*;
use vstd::std_specs::convert::FromSpec;
use vstd::string::StringExecFns;

verus! {

/// The loader codes of the CurseForge wire format.
#[derive(Clone, Copy, Debug, PartialEq, Eq, Structural)]
pub enum ModLoaderType {
    Any,
    Forge,
    Cauldron,
    LiteLoader,
    Fabric,
    Quilt,
}

impl ModLoaderType {
    /// The number the wire format uses for this loader.
    pub open spec fn spec_code(self) -> u32 {
        match self {
            ModLoaderType::Any => 0,
            ModLoaderType::Forge => 1,
            ModLoaderType::Cauldron => 2,
            ModLoaderType::LiteLoader => 3,
            ModLoaderType::Fabric => 4,
            ModLoaderType::Quilt => 5,
        }
    }

    /// Renders the loader as its numeric wire code.
    pub fn code(&self) -> (r: u32)
        ensures
            r == self.spec_code(),
    {
        match self {
            ModLoaderType::Any => 0,
            ModLoaderType::Forge => 1,
            ModLoaderType::Cauldron => 2,
            ModLoaderType::LiteLoader => 3,
            ModLoaderType::Fabric => 4,
            ModLoaderType::Quilt => 5,
        }
    }
}

impl From<ModLoader> for ModLoaderType {
    /// The session's loader under the CurseForge coding.
    fn from(value: ModLoader) -> (r: Self) {
        match value {
            ModLoader::Forge => ModLoaderType::Forge,
            ModLoader::Fabric => ModLoaderType::Fabric,
        }
    }
}

impl vstd::std_specs::convert::FromSpecImpl<ModLoader> for ModLoaderType {
    open spec fn obeys_from_spec() -> bool {
        true
    }

    open spec fn from_spec(v: ModLoader) -> Self {
        match v {
            ModLoader::Forge => ModLoaderType::Forge,
            ModLoader::Fabric => ModLoaderType::Fabric,
        }
    }
}

/// The links attached to a catalog record.
#[derive(Debug)]
pub struct ModLink {
    pub website_url: Option<String>,
}

/// One file attached to a catalog record, reduced to the fields the
/// logic reads.
#[derive(Debug)]
pub struct LatestFile {
    pub id: u32,
    pub file_name: Option<String>,
    pub game_versions: Vec<String>,
    pub download_url: Option<String>,
}

/// One catalog record.
#[derive(Debug)]
pub struct CurseforgeMod {
    pub id: u32,
    pub name: String,
    pub links: ModLink,
    pub latest_files: Vec<LatestFile>,
}

/// The body of a search response.
#[derive(Debug)]
pub struct CurseforgeResponse {
    pub data: Vec<CurseforgeMod>,
}

/// The body of a single-record response.
#[derive(Debug)]
pub struct CurseForgeGetModResponse {
    pub data: CurseforgeMod,
}

/// The file a download resolves to: the first of the record's files
/// that was built for the requested game version.  The wire format
/// does not tie these files to a loader, so the loader plays no part
/// in the choice.
pub open spec fn selected_latest_file(files: Seq<LatestFile>, version: Seq<char>) -> Option<
    LatestFile,
>
    decreases files.len(),
{
    if files.len() == 0 {
        None
    } else if listed(files[0].game_versions@, version) {
        Some(files[0])
    } else {
        selected_latest_file(files.drop_first(), version)
    }
}

/// The CurseForge backend's decision logic.  All state lives with the
/// service; the type only groups the operations.
#[derive(Clone, Copy, Debug, Default)]
pub struct CurseforgeRepository;

impl CurseforgeRepository {
    /// The endpoint for one catalog record.
    pub fn mod_url(&self, mod_identifier: &str) -> (r: String)
        ensures
            r@ == "https://api.curseforge.com/v1/mods/"@ + mod_identifier@,
    {
        let mut s = String::from_str("https://api.curseforge.com/v1/mods/");
        s.append(mod_identifier);
        s
    }

    /// The full search URL: the game version, the loader's numeric
    /// code and the free-text query, percent-encoded onto the search
    /// endpoint, which itself carries the game's fixed identifier.
    pub fn search_url(&self, name: &str, version: &str, loader: ModLoader) -> (r: Option<String>)
        ensures
            ({
                let expected = url_with_params(
                    "https://api.curseforge.com/v1/mods/search?gameId=432"@,
                    seq![
                        ("gameVersion"@, version@),
                        ("modLoaderType"@, dec_rep(ModLoaderType::from_spec(loader).spec_code() as nat)),
                        ("searchFilter"@, name@),
                    ],
                );
                match r {
                    Some(u) => expected == Some(u@),
                    None => expected is None,
                }
            }),
    {
        let loader_code = ModLoaderType::from(loader).code();
        let mut params: Vec<(String, String)> = Vec::new();
        params.push(("gameVersion".to_owned(), version.to_owned()));
        params.push(("modLoaderType".to_owned(), u32_string(loader_code)));
        params.push(("searchFilter".to_owned(), name.to_owned()));
        proof {
            assert(param_views(params@) =~= seq![
                ("gameVersion"@, version@),
                ("modLoaderType"@, dec_rep(ModLoaderType::from_spec(loader).spec_code() as nat)),
                ("searchFilter"@, name@),
            ]);
        }
        build_url("https://api.curseforge.com/v1/mods/search?gameId=432", &params)
    }

    /// Turns the records of a search response into fresh catalog
    /// entries: status `Normal`, no recorded file, the numeric
    /// identifier rendered as decimal text.
    pub fn mods_from_results(&self, mods: &Vec<CurseforgeMod>) -> (r: Vec<MinecraftMod>)
        ensures
            r@.len() == mods@.len(),
            forall|j: int|
                0 <= j < mods@.len() ==> {
                    let e = #[trigger] r@[j];
                    &&& e.status == ModStatus::Normal
                    &&& e.corresponding_file is None
                    &&& e.mod_identifier@ == dec_rep(mods@[j].id as nat)
                    &&& e.name == mods@[j].name
                },
    {
        let mut out: Vec<MinecraftMod> = Vec::new();
        let n = mods.len();
        let mut i: usize = 0;
        while i < n
            invariant
                i <= n,
                n == mods@.len(),
                out@.len() == i,
                forall|j: int|
                    0 <= j < i ==> {
                        let e = #[trigger] out@[j];
                        &&& e.status == ModStatus::Normal
                        &&& e.corresponding_file is None
                        &&& e.mod_identifier@ == dec_rep(mods@[j].id as nat)
                        &&& e.name == mods@[j].name
                    },
            decreases n - i,
        {
            out.push(
                MinecraftMod {
                    status: ModStatus::Normal,
                    corresponding_file: None,
                    mod_identifier: u32_string(mods[i].id),
                    name: mods[i].name.clone(),
                },
            );
            i = i + 1;
        }
        out
    }

    /// The URL and file name to download: taken from the first file
    /// built for the requested game version, as `selected_latest_file`
    /// describes.  `None` — no file fits, or the chosen file lacks a
    /// name or a download URL — stands for the no-match failure that
    /// the caller reports as a download error.
    pub fn select_file(&self, files: &Vec<LatestFile>, version: &str) -> (r: Option<
        (String, String),
    >)
        ensures
            match selected_latest_file(files@, version@) {
                Some(lf) => match (lf.download_url, lf.file_name) {
                    (Some(u), Some(f)) => (r matches Some(p) && p.0 == u && p.1 == f),
                    _ => r is None,
                },
                None => r is None,
            },
    {
        let n = files.len();
        let mut i: usize = 0;
        proof {
            assert(files@.skip(0) =~= files@);
        }
        while i < n
            invariant
                i <= n,
                n == files@.len(),
                selected_latest_file(files@, version@) == selected_latest_file(
                    files@.skip(i as int),
                    version@,
                ),
            decreases n - i,
        {
            proof {
                assert(files@.skip(i as int)[0] == files@[i as int]);
                assert(files@.skip(i as int).drop_first() =~= files@.skip(i as int + 1));
            }
            let v = version.to_owned();
            if contains_string(&files[i].game_versions, &v) {
                let url = match &files[i].download_url {
                    Some(u) => u.clone(),
                    None => {
                        return None;
                    },
                };
                let file_name = match &files[i].file_name {
                    Some(f) => f.clone(),
                    None => {
                        return None;
                    },
                };
                return Some((url, file_name));
            }
            i = i + 1;
        }
        None
    }
}

} // verus!
