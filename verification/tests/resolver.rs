use demos_resolver::candidates::candidate_paths;
use demos_resolver::context::Candidate;
use demos_resolver::context::OsFamily;
use demos_resolver::context::PlatformContext;
use demos_resolver::context::SearchOutcome;
use demos_resolver::diagnostic::diagnostic;
use demos_resolver::selection::pair_candidates;
use demos_resolver::selection::resolve_candidates;

fn ctx(
    home: Option<&str>,
    user_profile: Option<&str>,
    cwd: &str,
    exe_path: &str,
    os: OsFamily,
) -> PlatformContext {
    PlatformContext {
        home: home.map(|s| s.to_string()),
        user_profile: user_profile.map(|s| s.to_string()),
        cwd: cwd.to_string(),
        exe_path: exe_path.to_string(),
        os,
    }
}

fn probe(c: &PlatformContext, existing: &[&str]) -> Vec<Candidate> {
    let paths = candidate_paths(c);
    let flags: Vec<bool> = paths.iter().map(|p| existing.contains(&p.as_str())).collect();
    pair_candidates(paths, &flags)
}

fn resolve(c: &PlatformContext, existing: &[&str]) -> Result<String, String> {
    match resolve_candidates(probe(c, existing)) {
        SearchOutcome::Found(p) => Ok(p),
        SearchOutcome::NotFound(cands) => Err(diagnostic(c, &cands)),
    }
}

#[test]
fn home_install_wins_when_only_candidate() {
    let c = ctx(Some("/home/u"), None, "/work", "/usr/bin/app", OsFamily::Linux);
    let got = resolve(&c, &["/home/u/.demos-toolkit/demostools_file.ts"]);
    assert_eq!(got, Ok("/home/u/.demos-toolkit/demostools_file.ts".to_string()));
}

#[test]
fn exe_ancestor_found_one_level_up() {
    let c = ctx(None, None, "/work", "/opt/app/bin/app", OsFamily::Linux);
    let got = resolve(&c, &["/opt/app/demostools_file.ts"]);
    assert_eq!(got, Ok("/opt/app/demostools_file.ts".to_string()));
}

#[test]
fn total_failure_diagnostic_names_all_checked_paths() {
    let c = ctx(
        Some("/home/u"),
        Some("C:\\Users\\u"),
        "/work",
        "/opt/app/bin/app",
        OsFamily::Linux,
    );
    let cands = probe(&c, &[]);
    let got = resolve(&c, &[]);
    let diag = got.unwrap_err();
    for cand in &cands {
        assert!(diag.contains(cand.path.as_str()));
        assert!(diag.contains(&format!("- {} (exists: false)\n", cand.path)));
    }
    assert!(diag.contains("/home/u/.demos-toolkit/demostools_file.ts"));
    assert!(diag.contains("C:\\Users\\u\\.demos-toolkit\\demostools_file.ts"));
    assert!(diag.contains("../../demostools_file.ts"));
    assert!(diag.contains("Current dir: /work"));
    assert!(diag.contains("Exe path: /opt/app/bin/app"));
    assert!(diag.contains("HOME: /home/u"));
    assert!(diag.contains("USERPROFILE: C:\\Users\\u"));
    assert!(diag.contains("Platform: linux"));
}

#[test]
fn failure_diagnostic_shows_placeholders_for_unset_variables() {
    let c = ctx(None, None, "/work", "/opt/app/bin/app", OsFamily::Other);
    let diag = resolve(&c, &[]).unwrap_err();
    assert!(diag.contains("HOME: HOME_NOT_SET"));
    assert!(diag.contains("USERPROFILE: USERPROFILE_NOT_SET"));
    assert!(diag.contains("Platform: unknown"));
}

#[test]
fn higher_tier_beats_lower_tier() {
    let c = ctx(Some("/home/u"), None, "/work", "/opt/app/bin/app", OsFamily::Linux);
    let both = [
        "/home/u/.demos-toolkit/demostools_file.ts",
        "/opt/app/bin/demostools_file.ts",
    ];
    assert_eq!(
        resolve(&c, &both),
        Ok("/home/u/.demos-toolkit/demostools_file.ts".to_string())
    );
}

#[test]
fn home_variant_beats_profile_variant() {
    let c = ctx(
        Some("/home/u"),
        Some("C:\\Users\\u"),
        "/work",
        "/usr/bin/app",
        OsFamily::Linux,
    );
    let both = [
        "/home/u/.demos-toolkit/demostools_file.ts",
        "C:\\Users\\u\\.demos-toolkit\\demostools_file.ts",
    ];
    assert_eq!(
        resolve(&c, &both),
        Ok("/home/u/.demos-toolkit/demostools_file.ts".to_string())
    );
}

#[test]
fn dev_path_beats_exe_sibling() {
    let c = ctx(None, None, "/work", "/opt/app/bin/app", OsFamily::Linux);
    let both = ["../../demostools_file.ts", "/opt/app/bin/demostools_file.ts"];
    assert_eq!(resolve(&c, &both), Ok("../../demostools_file.ts".to_string()));
}

#[test]
fn lone_system_wide_candidate_is_still_found() {
    let c = ctx(Some("/home/u"), None, "/work", "/usr/bin/app", OsFamily::Linux);
    let only = ["/opt/demos-toolkit/demostools_file.ts"];
    assert_eq!(
        resolve(&c, &only),
        Ok("/opt/demos-toolkit/demostools_file.ts".to_string())
    );
}

#[test]
fn windows_system_tier_differs_from_posix() {
    let c = ctx(None, Some("C:\\Users\\u"), "C:\\work", "C:\\app\\bin\\app.exe", OsFamily::Windows);
    let only = ["C:\\Program Files\\demos-toolkit\\demostools_file.ts"];
    assert_eq!(
        resolve(&c, &only),
        Ok("C:\\Program Files\\demos-toolkit\\demostools_file.ts".to_string())
    );
    let paths = candidate_paths(&c);
    assert!(!paths.iter().any(|p| p == "/opt/demos-toolkit/demostools_file.ts"));
}

#[test]
fn resolution_is_idempotent_on_unchanged_state() {
    let c = ctx(Some("/home/u"), None, "/work", "/opt/app/bin/app", OsFamily::Linux);
    let existing = ["/opt/app/demostools_file.ts"];
    assert_eq!(resolve(&c, &existing), resolve(&c, &existing));
    assert_eq!(resolve(&c, &[]), resolve(&c, &[]));
}

#[test]
fn bundle_tier_probed_only_on_macos() {
    let exe = "/Applications/Demos SDK Toolkit.app/Contents/MacOS/Demos SDK Toolkit";
    let mac = ctx(None, None, "/work", exe, OsFamily::MacOs);
    let linux = ctx(None, None, "/work", exe, OsFamily::Linux);
    let mac_paths = candidate_paths(&mac);
    let linux_paths = candidate_paths(&linux);
    assert!(mac_paths.iter().any(|p| p.contains("internal_tools")));
    assert!(mac_paths.iter().any(|p| p.contains("/../../")));
    assert!(!linux_paths.iter().any(|p| p.contains("internal_tools")));
    assert!(!linux_paths.iter().any(|p| p.contains("/../../")));
}

#[test]
fn bundle_tier_skipped_without_bundle_marker() {
    let mac = ctx(None, None, "/work", "/usr/local/bin/app", OsFamily::MacOs);
    let paths = candidate_paths(&mac);
    assert!(!paths.iter().any(|p| p.contains("internal_tools")));
}

#[test]
fn bundle_candidates_in_declared_order() {
    let exe = "/Applications/Demos SDK Toolkit.app/Contents/MacOS/Demos SDK Toolkit";
    let mac = ctx(None, None, "/work", exe, OsFamily::MacOs);
    let paths = candidate_paths(&mac);
    let idx = |needle: &str| paths.iter().position(|p| p == needle).unwrap();
    let internal = idx("/Applications/internal_tools/demostools_file.ts");
    let direct = idx("/Applications/demostools_file.ts");
    let offset = idx("/Applications/../../demostools_file.ts");
    assert!(internal < direct && direct < offset);
}

#[test]
fn exe_path_without_separator_contributes_no_exe_tier() {
    let c = ctx(None, None, "/work", "unknown", OsFamily::Linux);
    let paths = candidate_paths(&c);
    let expected = vec![
        "../../demostools_file.ts",
        "/usr/local/demos-toolkit/demostools_file.ts",
        "/opt/demos-toolkit/demostools_file.ts",
    ];
    assert_eq!(paths, expected);
}

#[test]
fn bundle_candidate_beats_dev_path_on_macos() {
    let exe = "/Applications/Demos SDK Toolkit.app/Contents/MacOS/Demos SDK Toolkit";
    let c = ctx(None, None, "/work", exe, OsFamily::MacOs);
    let both = [
        "/Applications/demostools_file.ts",
        "../../demostools_file.ts",
    ];
    assert_eq!(
        resolve(&c, &both),
        Ok("/Applications/demostools_file.ts".to_string())
    );
}

#[test]
fn full_candidate_order_for_one_snapshot() {
    let c = ctx(
        Some("/home/u"),
        Some("C:\\Users\\u"),
        "/work",
        "/opt/app/bin/app",
        OsFamily::Linux,
    );
    let paths: Vec<String> = candidate_paths(&c);
    let expected = vec![
        "/home/u/.demos-toolkit/demostools_file.ts",
        "C:\\Users\\u\\.demos-toolkit\\demostools_file.ts",
        "../../demostools_file.ts",
        "/opt/app/bin/demostools_file.ts",
        "/opt/app/demostools_file.ts",
        "/opt/demostools_file.ts",
        "/demostools_file.ts",
        "/usr/local/demos-toolkit/demostools_file.ts",
        "/opt/demos-toolkit/demostools_file.ts",
    ];
    assert_eq!(paths, expected);
}
