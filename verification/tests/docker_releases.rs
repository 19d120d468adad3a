use fleeting::arch::Arch;
use fleeting::docker_releases::{
    get_docker_releases, greatest_admitted, index_url, parse_release_name, releases_from_hrefs,
    select_release, version_text, Release, Releases, SelectError, Version,
};

const INDEX: &str = "<html>\n<head><title>Index of linux/static/stable/x86_64/</title></head>\n<body>\n<h1>Index of linux/static/stable/x86_64/</h1>\n<hr>\n<pre><a href=\"../\">../</a>\n<a href=\"docker-17.03.0-ce.tgz\">docker-17.03.0-ce.tgz</a>  2020-01-01 00:00:00  26.5 MiB\n<a href=\"docker-18.09.9.tgz\">docker-18.09.9.tgz</a>  2020-01-01 00:00:00  50 MiB\n<a href=\"docker-1.13.1.tgz\">docker-1.13.1.tgz</a>\n<a href=\"docker-20.10.9.tgz\">docker-20.10.9.tgz</a>\n<a href=\"docker-20.10.24.tgz\">docker-20.10.24.tgz</a>\n<a href=\"docker-27.3.1.tgz\">docker-27.3.1.tgz</a>\n<a href=\"docker-19.03.15.tgz\">docker-19.03.15.tgz</a>\n<a href=\"docker-rootless-extras-27.3.1.tgz\">docker-rootless-extras-27.3.1.tgz</a>\n<a name=\"no-target\">nothing</a>\n<a href=\"docker-26.1.4.tgz\">docker-26.1.4.tgz</a>\n</pre><hr></body>\n</html>\n";

fn version(major: u64, minor: u64, patch: u64) -> Version {
    Version { major, minor, patch }
}

fn versions(releases: &Releases) -> Vec<(u64, u64, u64)> {
    let mut all = Vec::new();
    let mut i = 0;
    while let Some(release) = releases.get(i) {
        all.push((release.version.major, release.version.minor, release.version.patch));
        i += 1;
    }
    assert_eq!(i, releases.len());
    all
}

fn hrefs(names: &[&str]) -> Vec<Option<String>> {
    names.iter().map(|name| Some(String::from(*name))).collect()
}

#[test]
fn index_of_each_architecture() {
    assert_eq!(index_url(Arch::Amd64), "https://download.docker.com/linux/static/stable/x86_64/");
    assert_eq!(index_url(Arch::Arm64), "https://download.docker.com/linux/static/stable/aarch64/");
}

#[test]
fn version_part_of_a_release_name() {
    assert_eq!(version_text("docker-27.3.1.tgz"), Some(String::from("27.3.1")));
    assert_eq!(version_text("docker-0.0.0.tgz"), Some(String::from("0.0.0")));
    assert_eq!(version_text("docker-01.002.0003.tgz"), Some(String::from("01.002.0003")));
    assert_eq!(version_text("docker-99999999999999999999.1.1.tgz"), Some(String::from("99999999999999999999.1.1")));
}

#[test]
fn names_that_are_not_release_names() {
    for name in [
        "", "docker-.tgz", "docker-1.2.tgz", "docker-1.2.3.4.tgz", "docker-1.2.3.tar.gz", "docker-1.2.3.tgz ", " docker-1.2.3.tgz",
        "docker-1.2.3-ce.tgz", "docker-rootless-extras-27.3.1.tgz", "Docker-1.2.3.tgz", "docker-1.2.3.TGZ", "docker-1..3.tgz",
        "docker-1.2.x.tgz", "docker-1.2.3.tgz\n", "../", "docker-.tgz.tgz", "docker-1.2.3", "1.2.3.tgz", "docker-١.٢.٣.tgz",
        "docker--1.2.3.tgz", "docker-1.2.3.tgz.tgz",
    ] {
        assert_eq!(version_text(name), None, "{:?}", name);
        assert_eq!(parse_release_name(name), None, "{:?}", name);
    }
}

#[test]
fn version_of_a_release_name() {
    assert_eq!(parse_release_name("docker-27.3.1.tgz"), Some(version(27, 3, 1)));
    assert_eq!(parse_release_name("docker-0.0.0.tgz"), Some(version(0, 0, 0)));
    assert_eq!(parse_release_name("docker-20.10.24.tgz"), Some(version(20, 10, 24)));
    assert_eq!(
        parse_release_name("docker-18446744073709551615.0.18446744073709551615.tgz"),
        Some(version(u64::MAX, 0, u64::MAX))
    );
}

#[test]
fn numbers_with_leading_zeros_are_no_versions() {
    assert_eq!(parse_release_name("docker-17.03.0.tgz"), None);
    assert_eq!(parse_release_name("docker-19.03.15.tgz"), None);
    assert_eq!(parse_release_name("docker-00.1.1.tgz"), None);
    assert_eq!(parse_release_name("docker-1.1.01.tgz"), None);
}

#[test]
fn numbers_beyond_64_bits_are_no_versions() {
    assert_eq!(parse_release_name("docker-18446744073709551616.0.0.tgz"), None);
    assert_eq!(parse_release_name("docker-1.99999999999999999999.0.tgz"), None);
}

#[test]
fn versions_are_ordered_by_major_minor_patch() {
    assert!(version(1, 9, 9).precedes(&version(2, 0, 0)));
    assert!(version(20, 9, 9).precedes(&version(20, 10, 0)));
    assert!(version(20, 10, 9).precedes(&version(20, 10, 24)));
    assert!(!version(20, 10, 24).precedes(&version(20, 10, 9)));
    assert!(!version(1, 2, 3).precedes(&version(1, 2, 3)));
    assert!(!version(2, 0, 0).precedes(&version(1, 9, 9)));
}

#[test]
fn releases_of_an_index_page_ascend() {
    let releases = get_docker_releases(Arch::Amd64, INDEX);
    assert_eq!(versions(&releases), vec![(1, 13, 1), (20, 10, 9), (20, 10, 24), (26, 1, 4), (27, 3, 1)]);
    assert_eq!(releases.get(4).unwrap().url, "https://download.docker.com/linux/static/stable/x86_64/docker-27.3.1.tgz");
    assert_eq!(releases.get(0).unwrap().url, "https://download.docker.com/linux/static/stable/x86_64/docker-1.13.1.tgz");
    assert!(releases.get(5).is_none());
}

#[test]
fn releases_lie_below_the_index_of_their_architecture() {
    let releases = get_docker_releases(Arch::Arm64, INDEX);
    assert_eq!(releases.get(2).unwrap().url, "https://download.docker.com/linux/static/stable/aarch64/docker-20.10.24.tgz");
}

#[test]
fn page_without_links_has_no_releases() {
    assert_eq!(get_docker_releases(Arch::Amd64, "").len(), 0);
    assert_eq!(get_docker_releases(Arch::Amd64, "<p>docker-1.2.3.tgz</p>").len(), 0);
    assert_eq!(get_docker_releases(Arch::Amd64, "<a>docker-1.2.3.tgz</a>").len(), 0);
    assert_eq!(get_docker_releases(Arch::Amd64, "<a href='x'>docker-1.2.3.tgz</a>").len(), 0);
}

#[test]
fn link_targets_are_read_from_html() {
    let releases = get_docker_releases(Arch::Amd64, "<A HREF=docker-1.2.3.tgz>x</A><a class=b href='docker-4.5.6.tgz'>y");
    assert_eq!(versions(&releases), vec![(1, 2, 3), (4, 5, 6)]);
}

#[test]
fn links_are_listed_in_ascending_order_whatever_their_order() {
    let releases = releases_from_hrefs(Arch::Amd64, &hrefs(&["docker-3.0.0.tgz", "docker-1.0.0.tgz", "junk", "docker-2.0.0.tgz", "docker-1.0.1.tgz"]));
    assert_eq!(versions(&releases), vec![(1, 0, 0), (1, 0, 1), (2, 0, 0), (3, 0, 0)]);
}

#[test]
fn version_that_occurs_twice_is_listed_once() {
    let releases = releases_from_hrefs(Arch::Amd64, &hrefs(&["docker-1.0.0.tgz", "docker-2.0.0.tgz", "docker-1.0.0.tgz"]));
    assert_eq!(versions(&releases), vec![(1, 0, 0), (2, 0, 0)]);
    assert_eq!(releases.get(0).unwrap().url, "https://download.docker.com/linux/static/stable/x86_64/docker-1.0.0.tgz");
}

#[test]
fn links_without_target_are_passed_over() {
    let releases = releases_from_hrefs(Arch::Amd64, &vec![None, Some(String::from("docker-1.0.0.tgz")), None]);
    assert_eq!(versions(&releases), vec![(1, 0, 0)]);
    assert_eq!(releases_from_hrefs(Arch::Amd64, &Vec::new()).len(), 0);
}

#[test]
fn insert_puts_a_release_at_its_place() {
    let release = |v: Version, url: &str| Release { version: v, url: String::from(url) };
    let releases = Releases::new()
        .insert(release(version(2, 0, 0), "b"))
        .insert(release(version(1, 0, 0), "a"))
        .insert(release(version(3, 0, 0), "c"))
        .insert(release(version(2, 0, 0), "again"));
    assert_eq!(versions(&releases), vec![(1, 0, 0), (2, 0, 0), (3, 0, 0)]);
    assert_eq!(releases.get(1).unwrap().url, "again");
}

#[test]
fn last_true_of_flags() {
    assert_eq!(greatest_admitted(&vec![]), None);
    assert_eq!(greatest_admitted(&vec![false, false]), None);
    assert_eq!(greatest_admitted(&vec![true]), Some(0));
    assert_eq!(greatest_admitted(&vec![true, false, true, false]), Some(2));
    assert_eq!(greatest_admitted(&vec![false, true, true]), Some(2));
}

#[test]
fn any_version_selects_the_greatest_release() {
    let releases = get_docker_releases(Arch::Amd64, INDEX);
    let chosen = select_release("*", &releases).ok().unwrap();
    assert_eq!(chosen.version, version(27, 3, 1));
    assert_eq!(chosen.url, "https://download.docker.com/linux/static/stable/x86_64/docker-27.3.1.tgz");
}

#[test]
fn selector_narrows_the_choice() {
    let releases = get_docker_releases(Arch::Amd64, INDEX);
    assert_eq!(select_release("^20", &releases).ok().unwrap().version, version(20, 10, 24));
    assert_eq!(select_release("=20.10.9", &releases).ok().unwrap().version, version(20, 10, 9));
    assert_eq!(select_release("<20", &releases).ok().unwrap().version, version(1, 13, 1));
    assert_eq!(select_release("~26.1", &releases).ok().unwrap().version, version(26, 1, 4));
    assert_eq!(select_release(">=20, <27", &releases).ok().unwrap().version, version(26, 1, 4));
    assert_eq!(select_release("20.10.9", &releases).ok().unwrap().version, version(20, 10, 24));
}

#[test]
fn selector_that_nothing_satisfies() {
    let releases = get_docker_releases(Arch::Amd64, INDEX);
    let error = select_release("^28", &releases).err().unwrap();
    assert_eq!(error, SelectError::NoMatch);
    assert_eq!(error.message("^28"), "No docker version matches requirement: ^28");
    assert_eq!(select_release("*", &Releases::new()).err().unwrap(), SelectError::NoMatch);
}

#[test]
fn selector_that_is_no_requirement() {
    let releases = get_docker_releases(Arch::Amd64, INDEX);
    for selector in ["latest", "", "1.2.3.4", "^^1"] {
        assert_eq!(select_release(selector, &releases).err().unwrap(), SelectError::InvalidSelector, "{:?}", selector);
    }
    assert_eq!(select_release("latest", &Releases::new()).err().unwrap(), SelectError::InvalidSelector);
    assert_eq!(SelectError::InvalidSelector.message("latest"), "Invalid docker version requirement: latest");
}
