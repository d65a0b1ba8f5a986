//! The data model: catalog entries, their install status, the selected
//! loader and catalog backend, and the persisted manifest with its
//! on-load verification pass and its save-time filtering.

use vstd::prelude::*;
use vstd::string::StrSliceExecFns;

verus! {

/// The loader flavour a mod is built for.
#[derive(Clone, Copy, Debug, PartialEq, Eq, Structural)]
pub enum ModLoader {
    Forge,
    Fabric,
}

impl ModLoader {
    /// The lower-case name the catalog services use for this loader.
    pub open spec fn spec_name(self) -> Seq<char> {
        match self {
            ModLoader::Forge => "forge"@,
            ModLoader::Fabric => "fabric"@,
        }
    }

    /// Renders the loader under the name the catalog services expect.
    pub fn name(&self) -> (r: String)
        ensures
            r@ == self.spec_name(),
    {
        match self {
            ModLoader::Forge => "forge".to_owned(),
            ModLoader::Fabric => "fabric".to_owned(),
        }
    }
}

/// Which catalog backend the manifest was created against.
#[derive(Clone, Copy, Debug, PartialEq, Eq, Structural)]
pub enum ModRepository {
    Modrinth,
    Curseforge,
}

/// The install status of one entry.  `Normal` is the untracked default;
/// `Okay` and `Missing` record the outcome of verification or download;
/// `CanUpdate` is reserved and never produced; `Bad` marks a failed
/// download and is dropped from every save.
#[derive(Clone, Copy, Debug, PartialEq, Eq, Structural)]
pub enum ModStatus {
    Normal,
    Okay,
    Missing,
    CanUpdate,
    Bad,
}

impl Default for ModStatus {
    fn default() -> (r: Self)
        ensures
            r == ModStatus::Normal,
    {
        ModStatus::Normal
    }
}

/// One catalog entry as the panels and the manifest hold it.
#[derive(Debug)]
pub struct MinecraftMod {
    pub status: ModStatus,
    pub corresponding_file: Option<String>,
    pub mod_identifier: String,
    pub name: String,
}

impl Clone for MinecraftMod {
    fn clone(&self) -> (r: Self)
        ensures
            r == *self,
    {
        MinecraftMod {
            status: self.status,
            corresponding_file: match &self.corresponding_file {
                Some(f) => Some(f.clone()),
                None => None,
            },
            mod_identifier: self.mod_identifier.clone(),
            name: self.name.clone(),
        }
    }
}

/// The persisted manifest: the fixed game version, loader and backend,
/// plus the durable list of installed entries.
#[derive(Debug)]
pub struct ModDirectory {
    pub game_version: String,
    pub mod_loader: ModLoader,
    pub mod_repository: ModRepository,
    pub mods: Vec<MinecraftMod>,
}

impl Clone for ModDirectory {
    fn clone(&self) -> (r: Self)
        ensures
            r.game_version == self.game_version,
            r.mod_loader == self.mod_loader,
            r.mod_repository == self.mod_repository,
            r.mods@ == self.mods@,
    {
        let mut mods: Vec<MinecraftMod> = Vec::new();
        let n = self.mods.len();
        let mut i: usize = 0;
        while i < n
            invariant
                i <= n,
                n == self.mods@.len(),
                mods@ =~= self.mods@.take(i as int),
            decreases n - i,
        {
            mods.push(self.mods[i].clone());
            i = i + 1;
        }
        proof {
            assert(mods@ =~= self.mods@);
        }
        ModDirectory {
            game_version: self.game_version.clone(),
            mod_loader: self.mod_loader,
            mod_repository: self.mod_repository,
            mods,
        }
    }
}

/// Whether `f` occurs among the file names in `names`.
pub open spec fn listed(names: Seq<String>, f: Seq<char>) -> bool {
    exists|k: int| 0 <= k < names.len() && names[k]@ == f
}

/// Whether `s` occurs in `v`, compared by contents.
pub fn contains_string(v: &Vec<String>, s: &String) -> (r: bool)
    ensures
        r == listed(v@, s@),
{
    let n = v.len();
    let mut j: usize = 0;
    while j < n
        invariant
            j <= n,
            n == v@.len(),
            forall|k: int| 0 <= k < j ==> v@[k]@ != s@,
        decreases n - j,
    {
        if v[j] == *s {
            return true;
        }
        j = j + 1;
    }
    false
}

/// What one manifest entry becomes under verification against the file
/// names actually present: an entry whose recorded file is present is
/// kept as it is; one whose file is absent, or which records no file at
/// all, is downgraded to `Missing` with no recorded file.
pub open spec fn verified_entry(m: MinecraftMod, names: Seq<String>) -> MinecraftMod {
    match m.corresponding_file {
        Some(f) => if listed(names, f@) {
            m
        } else {
            MinecraftMod {
                status: ModStatus::Missing,
                corresponding_file: None,
                mod_identifier: m.mod_identifier,
                name: m.name,
            }
        },
        None => MinecraftMod {
            status: ModStatus::Missing,
            corresponding_file: None,
            mod_identifier: m.mod_identifier,
            name: m.name,
        },
    }
}

impl ModDirectory {
    /// The on-load verification pass.  `present` lists the file names
    /// that actually exist in the mod directory; every entry is checked
    /// against it and downgraded as `verified_entry` describes.  The
    /// caller probes the filesystem and hands the surviving names in.
    pub fn verify(&mut self, present: &Vec<String>)
        ensures
            final(self).game_version == old(self).game_version,
            final(self).mod_loader == old(self).mod_loader,
            final(self).mod_repository == old(self).mod_repository,
            final(self).mods@.len() == old(self).mods@.len(),
            forall|i: int|
                0 <= i < old(self).mods@.len() ==> final(self).mods@[i] == verified_entry(
                    old(self).mods@[i],
                    present@,
                ),
    {
        let n = self.mods.len();
        let mut i: usize = 0;
        while i < n
            invariant
                i <= n,
                n == self.mods@.len(),
                self.game_version == old(self).game_version,
                self.mod_loader == old(self).mod_loader,
                self.mod_repository == old(self).mod_repository,
                forall|j: int|
                    0 <= j < i ==> self.mods@[j] == verified_entry(old(self).mods@[j], present@),
                forall|j: int| i <= j < n ==> self.mods@[j] == old(self).mods@[j],
            decreases n - i,
        {
            let file_present = match &self.mods[i].corresponding_file {
                Some(f) => contains_string(present, f),
                None => false,
            };
            if !file_present {
                self.mods[i].status = ModStatus::Missing;
                self.mods[i].corresponding_file = None;
            }
            i = i + 1;
        }
    }

    /// Keeps an entry at save time: transient `Bad` entries are not
    /// persisted.
    pub open spec fn persisted(m: MinecraftMod) -> bool {
        m.status != ModStatus::Bad
    }

    /// The record that is persisted on exit: the same manifest with
    /// every `Bad` entry dropped; all other entries are kept in order,
    /// field for field.
    pub fn save(&self) -> (r: ModDirectory)
        ensures
            r.game_version == self.game_version,
            r.mod_loader == self.mod_loader,
            r.mod_repository == self.mod_repository,
            r.mods@ == self.mods@.filter(|m: MinecraftMod| ModDirectory::persisted(m)),
    {
        let mut kept: Vec<MinecraftMod> = Vec::new();
        let n = self.mods.len();
        let mut i: usize = 0;
        while i < n
            invariant
                i <= n,
                n == self.mods@.len(),
                kept@ == self.mods@.take(i as int).filter(
                    |m: MinecraftMod| ModDirectory::persisted(m),
                ),
            decreases n - i,
        {
            let is_bad = match self.mods[i].status {
                ModStatus::Bad => true,
                _ => false,
            };
            if !is_bad {
                kept.push(self.mods[i].clone());
            }
            proof {
                lemma_filter_step(
                    self.mods@,
                    i as int,
                    |m: MinecraftMod| ModDirectory::persisted(m),
                );
            }
            i = i + 1;
        }
        proof {
            assert(self.mods@.take(n as int) =~= self.mods@);
        }
        ModDirectory {
            game_version: self.game_version.clone(),
            mod_loader: self.mod_loader,
            mod_repository: self.mod_repository,
            mods: kept,
        }
    }
}

/// One step of `Seq::filter` taken from the front: filtering the first
/// `i + 1` elements either appends element `i` to the filtered first `i`
/// elements or leaves them as they are.
proof fn lemma_filter_step<A>(s: Seq<A>, i: int, pred: spec_fn(A) -> bool)
    requires
        0 <= i < s.len(),
    ensures
        s.take(i + 1).filter(pred) == if pred(s[i]) {
            s.take(i).filter(pred).push(s[i])
        } else {
            s.take(i).filter(pred)
        },
{
    reveal(Seq::filter);
    assert(s.take(i + 1).drop_last() =~= s.take(i));
    assert(s.take(i + 1).last() == s[i]);
}

/// The manifest round trip: with `n` entries of which `m` are `Bad`,
/// the saved record holds exactly `n - m` entries, none of them `Bad`,
/// every entry that was not `Bad` is among them, and `Seq::filter`
/// keeps them in their original order and field for field.  Reloading
/// the saved record therefore yields exactly those entries.
pub proof fn lemma_manifest_round_trip(mods: Seq<MinecraftMod>)
    ensures
        ({
            let kept = mods.filter(|m: MinecraftMod| ModDirectory::persisted(m));
            let bad = mods.filter(|m: MinecraftMod| m.status == ModStatus::Bad);
            &&& kept.len() + bad.len() == mods.len()
            &&& forall|i: int| 0 <= i < kept.len() ==> (#[trigger] kept[i]).status != ModStatus::Bad
            &&& forall|i: int|
                0 <= i < mods.len() && (#[trigger] mods[i]).status != ModStatus::Bad
                    ==> kept.contains(mods[i])
        }),
    decreases mods.len(),
{
    reveal(Seq::filter);
    let keep_pred = |m: MinecraftMod| ModDirectory::persisted(m);
    let bad_pred = |m: MinecraftMod| m.status == ModStatus::Bad;
    let kept = mods.filter(keep_pred);
    let bad = mods.filter(bad_pred);
    if mods.len() == 0 {
        assert(kept.len() == 0);
        assert(bad.len() == 0);
    } else {
        lemma_manifest_round_trip(mods.drop_last());
        assert(mods.drop_last().filter(keep_pred).len() + mods.drop_last().filter(bad_pred).len()
            == mods.drop_last().len());
    }
    assert forall|i: int| 0 <= i < kept.len() implies (#[trigger] kept[i]).status
        != ModStatus::Bad by {
        mods.lemma_filter_pred(keep_pred, i);
    }
    assert forall|i: int|
        0 <= i < mods.len() && (#[trigger] mods[i]).status != ModStatus::Bad implies kept.contains(
        mods[i],
    ) by {
        mods.lemma_filter_contains(keep_pred, i);
    }
}

/// The bootstrap parameters the command line supplies: the target
/// directory always, and the three manifest fields only when no
/// manifest exists yet.
#[derive(Debug)]
pub struct Preferences {
    pub path: String,
    pub version: Option<String>,
    pub mod_loader: Option<ModLoader>,
    pub mod_repository: Option<ModRepository>,
}

impl Preferences {
    /// Builds a fresh, empty manifest from the bootstrap parameters.
    /// All three of version, loader and backend must be supplied
    /// together; a partial bootstrap yields `None`, which the caller
    /// reports as a fatal startup error.
    pub fn bootstrap(&self) -> (r: Option<ModDirectory>)
        ensures
            r is Some <==> (self.version is Some && self.mod_loader is Some
                && self.mod_repository is Some),
            r matches Some(d) ==> {
                &&& d.game_version == self.version->0
                &&& d.mod_loader == self.mod_loader->0
                &&& d.mod_repository == self.mod_repository->0
                &&& d.mods@.len() == 0
            },
    {
        match (&self.version, &self.mod_loader, &self.mod_repository) {
            (Some(version), Some(mod_loader), Some(mod_repository)) => Some(
                ModDirectory {
                    game_version: version.clone(),
                    mod_loader: *mod_loader,
                    mod_repository: *mod_repository,
                    mods: Vec::new(),
                },
            ),
            _ => None,
        }
    }
}

} // verus!
