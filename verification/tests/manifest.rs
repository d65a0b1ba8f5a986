use mcmd::mc_mod::{MinecraftMod, ModDirectory, ModLoader, ModRepository, ModStatus, Preferences};

fn entry(id: &str, status: ModStatus, file: Option<&str>) -> MinecraftMod {
    MinecraftMod {
        status,
        corresponding_file: file.map(|f| f.to_string()),
        mod_identifier: id.to_string(),
        name: id.to_uppercase(),
    }
}

fn directory(mods: Vec<MinecraftMod>) -> ModDirectory {
    ModDirectory {
        game_version: "1.20.1".to_string(),
        mod_loader: ModLoader::Forge,
        mod_repository: ModRepository::Modrinth,
        mods,
    }
}

// The manifest round trip: three entries, one of them Bad; the saved
// record holds the other two, field for field and in order.
#[test]
fn save_drops_bad_entries_and_keeps_the_rest() {
    let d = directory(vec![
        entry("a", ModStatus::Okay, Some("a.jar")),
        entry("b", ModStatus::Bad, None),
        entry("c", ModStatus::Normal, None),
    ]);
    let saved = d.save();
    assert_eq!(saved.game_version, "1.20.1");
    assert_eq!(saved.mod_loader, ModLoader::Forge);
    assert_eq!(saved.mod_repository, ModRepository::Modrinth);
    assert_eq!(saved.mods.len(), 2);
    assert_eq!(saved.mods[0].mod_identifier, "a");
    assert_eq!(saved.mods[0].status, ModStatus::Okay);
    assert_eq!(saved.mods[0].corresponding_file, Some("a.jar".to_string()));
    assert_eq!(saved.mods[0].name, "A");
    assert_eq!(saved.mods[1].mod_identifier, "c");
    assert_eq!(saved.mods[1].status, ModStatus::Normal);
}

#[test]
fn save_of_all_good_entries_keeps_everything() {
    let d = directory(vec![
        entry("a", ModStatus::Okay, Some("a.jar")),
        entry("b", ModStatus::Normal, None),
    ]);
    assert_eq!(d.save().mods.len(), 2);
}

#[test]
fn verify_keeps_entries_whose_file_is_present() {
    let mut d = directory(vec![entry("a", ModStatus::Okay, Some("a.jar"))]);
    d.verify(&vec!["a.jar".to_string(), "other.jar".to_string()]);
    assert_eq!(d.mods[0].status, ModStatus::Okay);
    assert_eq!(d.mods[0].corresponding_file, Some("a.jar".to_string()));
}

#[test]
fn verify_downgrades_missing_files() {
    let mut d = directory(vec![entry("a", ModStatus::Okay, Some("a.jar"))]);
    d.verify(&vec!["other.jar".to_string()]);
    assert_eq!(d.mods[0].status, ModStatus::Missing);
    assert_eq!(d.mods[0].corresponding_file, None);
}

#[test]
fn verify_downgrades_entries_without_a_file() {
    let mut d = directory(vec![entry("a", ModStatus::Okay, None)]);
    d.verify(&vec!["a.jar".to_string()]);
    assert_eq!(d.mods[0].status, ModStatus::Missing);
    assert_eq!(d.mods[0].corresponding_file, None);
}

#[test]
fn bootstrap_requires_all_three_parameters() {
    let partial = Preferences {
        path: "/tmp/mods".to_string(),
        version: Some("1.20.1".to_string()),
        mod_loader: None,
        mod_repository: Some(ModRepository::Modrinth),
    };
    assert!(partial.bootstrap().is_none());

    let none_given = Preferences {
        path: "/tmp/mods".to_string(),
        version: None,
        mod_loader: None,
        mod_repository: None,
    };
    assert!(none_given.bootstrap().is_none());
}

#[test]
fn bootstrap_builds_an_empty_manifest() {
    let full = Preferences {
        path: "/tmp/mods".to_string(),
        version: Some("1.20.1".to_string()),
        mod_loader: Some(ModLoader::Fabric),
        mod_repository: Some(ModRepository::Curseforge),
    };
    let d = full.bootstrap().unwrap();
    assert_eq!(d.game_version, "1.20.1");
    assert_eq!(d.mod_loader, ModLoader::Fabric);
    assert_eq!(d.mod_repository, ModRepository::Curseforge);
    assert!(d.mods.is_empty());
}

#[test]
fn loader_names_match_the_wire_format() {
    assert_eq!(ModLoader::Forge.name(), "forge");
    assert_eq!(ModLoader::Fabric.name(), "fabric");
}

#[test]
fn default_status_is_normal() {
    assert_eq!(ModStatus::default(), ModStatus::Normal);
}
