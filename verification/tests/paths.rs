use sidecar_supervisor::paths::first_match;
use sidecar_supervisor::paths::resolve_script;
use sidecar_supervisor::paths::runtime_base;
use sidecar_supervisor::paths::runtime_rel_path;
use sidecar_supervisor::paths::script_candidates;
use sidecar_supervisor::paths::BaseDir;
use sidecar_supervisor::paths::BuildMode;
use sidecar_supervisor::paths::PathCandidate;

#[test]
fn development_probe_order() {
    let c = script_candidates(BuildMode::Development);
    assert_eq!(
        c,
        vec![PathCandidate::DevRepoRoot, PathCandidate::DevOneUp, PathCandidate::DevTwoUp]
    );
    assert_eq!(c[0].rel_path(), "backend/app/main.py");
    assert_eq!(c[1].rel_path(), "../backend/app/main.py");
    assert_eq!(c[2].rel_path(), "../../backend/app/main.py");
    assert_eq!(c[0].base(), BaseDir::Cwd);
    assert_eq!(c[1].base(), BaseDir::Cwd);
    assert_eq!(c[2].base(), BaseDir::Cwd);
}

#[test]
fn packaged_probe_order() {
    let c = script_candidates(BuildMode::Packaged);
    assert_eq!(c, vec![PathCandidate::PackagedUpdaterDir, PathCandidate::PackagedExeDir]);
    assert_eq!(c[0].rel_path(), "_up_/_up_/backend/app/main.py");
    assert_eq!(c[0].base(), BaseDir::DataDir);
    assert_eq!(c[1].rel_path(), "backend/app/main.py");
    assert_eq!(c[1].base(), BaseDir::ExeDir);
}

#[test]
fn first_match_takes_earliest() {
    assert_eq!(first_match(&vec![false, true, true]), Some(1));
    assert_eq!(first_match(&vec![true, false]), Some(0));
    assert_eq!(first_match(&vec![false, false, false]), None);
    assert_eq!(first_match(&vec![]), None);
}

#[test]
fn resolve_script_picks_first_existing() {
    let r = resolve_script(BuildMode::Development, &vec![false, true, true]);
    assert_eq!(r.map_err(|_| ()), Ok(1));
}

#[test]
fn resolve_script_reports_all_tried() {
    let r = resolve_script(BuildMode::Packaged, &vec![false, false]);
    match r {
        Ok(_) => panic!("no candidate existed"),
        Err(e) => {
            assert_eq!(
                e.tried,
                vec![PathCandidate::PackagedUpdaterDir, PathCandidate::PackagedExeDir]
            );
        }
    }
}

#[test]
fn runtime_locations() {
    assert_eq!(runtime_rel_path(BuildMode::Development), "resources/python/python.exe");
    assert_eq!(runtime_rel_path(BuildMode::Packaged), "python/python.exe");
    assert_eq!(runtime_base(BuildMode::Development), BaseDir::DevProjectDir);
    assert_eq!(runtime_base(BuildMode::Packaged), BaseDir::ResourceDir);
}
