//! The Modrinth catalog backend: the data shapes its wire format maps
//! to, and the decision logic of search, download and dependency
//! resolution.  The application shell performs the HTTP requests; it
//! hands the decoded records to these functions and carries the chosen
//! URLs and files out.

use crate::mc_mod::{contains_string, listed, MinecraftMod, ModLoader, ModStatus};
use crate::query::{build_url, param_views, url_with_params};
use vstd::prelude::*;
use vstd::string::StrSliceExecFns;
use vstd::string::StringExecFns;

verus! {

/// One search hit, reduced to the fields the reconciliation logic
/// reads.
#[derive(Debug)]
pub struct ModrinthMod {
    pub project_id: String,
    pub title: String,
}

/// One downloadable file attached to a release.
#[derive(Debug)]
pub struct ModrinthFile {
    pub url: String,
    pub filename: String,
}

impl Clone for ModrinthFile {
    fn clone(&self) -> (r: Self)
        ensures
            r == *self,
    {
        ModrinthFile { url: self.url.clone(), filename: self.filename.clone() }
    }
}

/// One declared dependency of a release.
#[derive(Debug)]
pub struct ModrinthDependency {
    pub project_id: Option<String>,
    pub dependency_type: String,
}

/// One release of a project: the game versions and loaders it was
/// built for, its files, and its declared dependencies.
#[derive(Debug)]
pub struct ModrinthReleases {
    pub files: Vec<ModrinthFile>,
    pub game_versions: Vec<String>,
    pub loaders: Vec<String>,
    pub dependencies: Vec<ModrinthDependency>,
}

/// One project's catalog record, as fetched when resolving a
/// dependency.
#[derive(Debug)]
pub struct ModrinthProject {
    pub title: String,
    pub id: String,
}

/// The body of a search response.
#[derive(Debug)]
pub struct ModrinthResponse {
    pub hits: Vec<ModrinthMod>,
}

/// Whether a release fits the session: it was built for the requested
/// game version and for the requested loader.
pub open spec fn fits_spec(rel: ModrinthReleases, version: Seq<char>, loader: ModLoader) -> bool {
    listed(rel.game_versions@, version) && listed(rel.loaders@, loader.spec_name())
}

impl ModrinthReleases {
    /// Whether this release fits the requested game version and
    /// loader.
    pub fn fits_requirements(&self, version: &str, loader: ModLoader) -> (r: bool)
        ensures
            r == fits_spec(*self, version@, loader),
    {
        let v = version.to_owned();
        let l = loader.name();
        contains_string(&self.game_versions, &v) && contains_string(&self.loaders, &l)
    }
}

/// The file a download resolves to: the first file of the first
/// release that fits the requested version and loader.  There is none
/// when no release fits, or when the first fitting release carries no
/// files.
pub open spec fn selected_file(
    releases: Seq<ModrinthReleases>,
    version: Seq<char>,
    loader: ModLoader,
) -> Option<ModrinthFile>
    decreases releases.len(),
{
    if releases.len() == 0 {
        None
    } else if fits_spec(releases[0], version, loader) {
        if releases[0].files@.len() > 0 {
            Some(releases[0].files@[0])
        } else {
            None
        }
    } else {
        selected_file(releases.drop_first(), version, loader)
    }
}

/// Whether the text reads "required", compared without regard to ASCII
/// case.
pub open spec fn is_required_type(s: Seq<char>) -> bool {
    &&& s.len() == 8
    &&& (s[0] == 'r' || s[0] == 'R')
    &&& (s[1] == 'e' || s[1] == 'E')
    &&& (s[2] == 'q' || s[2] == 'Q')
    &&& (s[3] == 'u' || s[3] == 'U')
    &&& (s[4] == 'i' || s[4] == 'I')
    &&& (s[5] == 'r' || s[5] == 'R')
    &&& (s[6] == 'e' || s[6] == 'E')
    &&& (s[7] == 'd' || s[7] == 'D')
}

/// Whether a dependency's relationship type reads "required", without
/// regard to ASCII case.
pub fn required_type(s: &str) -> (r: bool)
    ensures
        r == is_required_type(s@),
{
    let n = s.unicode_len();
    if n != 8 {
        return false;
    }
    let c0 = s.get_char(0);
    let c1 = s.get_char(1);
    let c2 = s.get_char(2);
    let c3 = s.get_char(3);
    let c4 = s.get_char(4);
    let c5 = s.get_char(5);
    let c6 = s.get_char(6);
    let c7 = s.get_char(7);
    (c0 == 'r' || c0 == 'R') && (c1 == 'e' || c1 == 'E') && (c2 == 'q' || c2 == 'Q') && (c3 == 'u'
        || c3 == 'U') && (c4 == 'i' || c4 == 'I') && (c5 == 'r' || c5 == 'R') && (c6 == 'e' || c6
        == 'E') && (c7 == 'd' || c7 == 'D')
}

/// The catalog identifiers of a release's required dependencies, in
/// declaration order: dependencies without a project identifier and
/// dependencies of any other relationship type are dropped.
pub open spec fn required_ids(deps: Seq<ModrinthDependency>) -> Seq<String>
    decreases deps.len(),
{
    if deps.len() == 0 {
        Seq::empty()
    } else {
        let rest = required_ids(deps.drop_last());
        let d = deps.last();
        if d.project_id is Some && is_required_type(d.dependency_type@) {
            rest.push(d.project_id->0)
        } else {
            rest
        }
    }
}

/// The facet expression sent with a search: restrict to mods, to the
/// requested game version, and to the requested loader.
pub open spec fn facets_spec(version: Seq<char>, loader: ModLoader) -> Seq<char> {
    "[[\"project_type:mod\"],[\"versions:"@ + version + "\"],[\"categories:"@ + loader.spec_name()
        + "\"]]"@
}

/// The Modrinth backend's decision logic.  All state lives with the
/// service; the type only groups the operations.
#[derive(Clone, Copy, Debug, Default)]
pub struct ModrinthRepository;

impl ModrinthRepository {
    /// The endpoint listing a project's releases.
    pub fn releases_url(&self, mod_identifier: &str) -> (r: String)
        ensures
            r@ == "https://api.modrinth.com/v2/project/"@ + mod_identifier@ + "/version"@,
    {
        let mut s = String::from_str("https://api.modrinth.com/v2/project/");
        s.append(mod_identifier);
        s.append("/version");
        s
    }

    /// The endpoint for one project's catalog record, used when
    /// resolving dependencies.
    pub fn project_url(&self, mod_identifier: &str) -> (r: String)
        ensures
            r@ == "https://api.modrinth.com/v2/project/"@ + mod_identifier@,
    {
        let mut s = String::from_str("https://api.modrinth.com/v2/project/");
        s.append(mod_identifier);
        s
    }

    /// The entry's canonical web page, opened in the user's browser.
    pub fn page_url(&self, mod_identifier: &str) -> (r: String)
        ensures
            r@ == "https://modrinth.com/project/"@ + mod_identifier@,
    {
        let mut s = String::from_str("https://modrinth.com/project/");
        s.append(mod_identifier);
        s
    }

    /// The facet expression sent with a search.
    pub fn search_facets(&self, version: &str, loader: ModLoader) -> (r: String)
        ensures
            r@ == facets_spec(version@, loader),
    {
        let mut s = String::from_str("[[\"project_type:mod\"],[\"versions:");
        s.append(version);
        s.append("\"],[\"categories:");
        let l = loader.name();
        s.append(l.as_str());
        s.append("\"]]");
        s
    }

    /// The full search URL: the free-text query, a result limit of 20,
    /// and the facet expression, percent-encoded onto the search
    /// endpoint.
    pub fn search_url(&self, name: &str, version: &str, loader: ModLoader) -> (r: Option<String>)
        ensures
            ({
                let expected = url_with_params(
                    "https://api.modrinth.com/v2/search"@,
                    seq![
                        ("query"@, name@),
                        ("limit"@, "20"@),
                        ("facets"@, facets_spec(version@, loader)),
                    ],
                );
                match r {
                    Some(u) => expected == Some(u@),
                    None => expected is None,
                }
            }),
    {
        let mut params: Vec<(String, String)> = Vec::new();
        params.push(("query".to_owned(), name.to_owned()));
        params.push(("limit".to_owned(), "20".to_owned()));
        params.push(("facets".to_owned(), self.search_facets(version, loader)));
        proof {
            assert(param_views(params@) =~= seq![
                ("query"@, name@),
                ("limit"@, "20"@),
                ("facets"@, facets_spec(version@, loader)),
            ]);
        }
        build_url("https://api.modrinth.com/v2/search", &params)
    }

    /// Turns the hits of a search response into fresh catalog entries:
    /// status `Normal`, no recorded file.
    pub fn mods_from_hits(&self, hits: &Vec<ModrinthMod>) -> (r: Vec<MinecraftMod>)
        ensures
            r@.len() == hits@.len(),
            forall|j: int|
                0 <= j < hits@.len() ==> #[trigger] r@[j] == (MinecraftMod {
                    status: ModStatus::Normal,
                    corresponding_file: None,
                    mod_identifier: hits@[j].project_id,
                    name: hits@[j].title,
                }),
    {
        let mut out: Vec<MinecraftMod> = Vec::new();
        let n = hits.len();
        let mut i: usize = 0;
        while i < n
            invariant
                i <= n,
                n == hits@.len(),
                out@.len() == i,
                forall|j: int|
                    0 <= j < i ==> #[trigger] out@[j] == (MinecraftMod {
                        status: ModStatus::Normal,
                        corresponding_file: None,
                        mod_identifier: hits@[j].project_id,
                        name: hits@[j].title,
                    }),
            decreases n - i,
        {
            out.push(
                MinecraftMod {
                    status: ModStatus::Normal,
                    corresponding_file: None,
                    mod_identifier: hits[i].project_id.clone(),
                    name: hits[i].title.clone(),
                },
            );
            i = i + 1;
        }
        out
    }

    /// The file to download: the first file of the first release that
    /// fits the requested version and loader, as `selected_file`
    /// describes.  `None` stands for the no-match failure that the
    /// caller reports as a download error.
    pub fn select_release(
        &self,
        releases: &Vec<ModrinthReleases>,
        version: &str,
        loader: ModLoader,
    ) -> (r: Option<ModrinthFile>)
        ensures
            r == selected_file(releases@, version@, loader),
    {
        let n = releases.len();
        let mut i: usize = 0;
        proof {
            assert(releases@.skip(0) =~= releases@);
        }
        while i < n
            invariant
                i <= n,
                n == releases@.len(),
                selected_file(releases@, version@, loader) == selected_file(
                    releases@.skip(i as int),
                    version@,
                    loader,
                ),
            decreases n - i,
        {
            proof {
                assert(releases@.skip(i as int)[0] == releases@[i as int]);
                assert(releases@.skip(i as int).drop_first() =~= releases@.skip(i as int + 1));
            }
            if releases[i].fits_requirements(version, loader) {
                if releases[i].files.len() > 0 {
                    return Some(releases[i].files[0].clone());
                } else {
                    return None;
                }
            }
            i = i + 1;
        }
        None
    }

    /// The identifiers of the release's required dependencies, as
    /// `required_ids` describes.  The caller fetches each identifier's
    /// catalog record and turns it into an entry with `From`.
    pub fn required_dependencies(&self, dependencies: &Vec<ModrinthDependency>) -> (r: Vec<String>)
        ensures
            r@ == required_ids(dependencies@),
    {
        let mut out: Vec<String> = Vec::new();
        let n = dependencies.len();
        let mut i: usize = 0;
        while i < n
            invariant
                i <= n,
                n == dependencies@.len(),
                out@ == required_ids(dependencies@.take(i as int)),
            decreases n - i,
        {
            proof {
                assert(dependencies@.take(i as int + 1).drop_last() =~= dependencies@.take(
                    i as int,
                ));
                assert(dependencies@.take(i as int + 1).last() == dependencies@[i as int]);
            }
            let keep = match &dependencies[i].project_id {
                Some(_) => required_type(dependencies[i].dependency_type.as_str()),
                None => false,
            };
            if keep {
                match &dependencies[i].project_id {
                    Some(id) => out.push(id.clone()),
                    None => (),
                }
            }
            i = i + 1;
        }
        proof {
            assert(dependencies@.take(n as int) =~= dependencies@);
        }
        out
    }
}

impl From<ModrinthProject> for MinecraftMod {
    /// A dependency's catalog record enters the session as a fresh
    /// entry: status `Normal`, no recorded file.
    fn from(value: ModrinthProject) -> (r: Self) {
        MinecraftMod {
            status: ModStatus::Normal,
            corresponding_file: None,
            mod_identifier: value.id,
            name: value.title,
        }
    }
}

impl vstd::std_specs::convert::FromSpecImpl<ModrinthProject> for MinecraftMod {
    open spec fn obeys_from_spec() -> bool {
        true
    }

    open spec fn from_spec(v: ModrinthProject) -> Self {
        MinecraftMod {
            status: ModStatus::Normal,
            corresponding_file: None,
            mod_identifier: v.id,
            name: v.title,
        }
    }
}

} // verus!
