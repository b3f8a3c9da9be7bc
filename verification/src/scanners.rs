//! The scanners: what each of them finds in the files that the caller has
//! read for it.

use vstd::prelude::*;
use crate::desktop_entry::{desktop_app, parse_desktop_file};
use crate::discovery::{app_views, DiscoveredApp, DiscoveredAppView};
use crate::epic::{epic_app, manifest_fields, parse_epic_manifest};
use crate::installed::{dedup_by_name, first_of_each_name};
use crate::steam::{acf_app, parse_acf};
use crate::text::texts;

verus! {

/// The kind of file that a scanner reads.
#[derive(Clone, Copy, Debug, PartialEq, Eq, Structural)]
pub enum Source {
    /// An app manifest of Steam.
    SteamManifest,
    /// A manifest of the Epic Games launcher.
    EpicManifest,
    /// A desktop entry.
    DesktopEntry,
}

/// The application that the text of one file describes, if it describes
/// one.
pub open spec fn described(source: Source, content: Seq<char>) -> Option<DiscoveredAppView> {
    match source {
        Source::SteamManifest => acf_app(content),
        Source::EpicManifest => match manifest_fields(content) {
            Some(fields) => epic_app(fields),
            None => None,
        },
        Source::DesktopEntry => desktop_app(content),
    }
}

/// The applications that the texts of some files describe, in the order of
/// the files. A file that describes none is passed over.
pub open spec fn described_by(source: Source, contents: Seq<Seq<char>>) -> Seq<DiscoveredAppView>
    decreases contents.len(),
{
    if contents.len() == 0 {
        seq![]
    } else {
        let earlier = described_by(source, contents.drop_last());
        match described(source, contents.last()) {
            Some(app) => earlier.push(app),
            None => earlier,
        }
    }
}

/// The application that the text of one file describes.
pub fn read_one(source: Source, content: &str) -> (app: Option<DiscoveredApp>)
    ensures
        crate::steam::found(app) == described(source, content@),
{
    match source {
        Source::SteamManifest => parse_acf(content),
        Source::EpicManifest => parse_epic_manifest(content),
        Source::DesktopEntry => parse_desktop_file(content),
    }
}

/// The applications that the texts of some files describe, in the order of
/// the files.
pub fn read_all(source: Source, contents: &Vec<String>) -> (apps: Vec<DiscoveredApp>)
    ensures
        app_views(apps@) == described_by(source, texts(contents@)),
{
    let ghost all = texts(contents@);
    let mut apps: Vec<DiscoveredApp> = Vec::new();
    let mut i: usize = 0;
    assert(all.take(0) =~= Seq::<Seq<char>>::empty());
    assert(app_views(apps@) =~= Seq::<DiscoveredAppView>::empty());
    while i < contents.len()
        invariant
            i <= contents.len(),
            all == texts(contents@),
            app_views(apps@) == described_by(source, all.take(i as int)),
        decreases contents.len() - i,
    {
        assert(all.take(i + 1).drop_last() =~= all.take(i as int));
        assert(all.take(i + 1).last() == contents@[i as int]@);
        let ghost before = app_views(apps@);
        match read_one(source, contents[i].as_str()) {
            Some(app) => {
                apps.push(app);
                assert(app_views(apps@) =~= before.push(app@));
            },
            None => {},
        }
        i = i + 1;
    }
    assert(all.take(contents@.len() as int) =~= all);
    apps
}

/// What the Steam scanner finds: the games that the app manifests of all
/// libraries describe. `manifests` holds the texts of the files
/// `appmanifest_*.acf`, library by library.
pub fn scan_steam(manifests: &Vec<String>) -> (apps: Vec<DiscoveredApp>)
    ensures
        app_views(apps@) == described_by(Source::SteamManifest, texts(manifests@)),
{
    read_all(Source::SteamManifest, manifests)
}

/// What the Epic scanner finds: the applications that the manifests
/// describe. `manifests` holds the texts of the `.item` files.
pub fn scan_epic(manifests: &Vec<String>) -> (apps: Vec<DiscoveredApp>)
    ensures
        app_views(apps@) == described_by(Source::EpicManifest, texts(manifests@)),
{
    read_all(Source::EpicManifest, manifests)
}

/// What the scanner of installed applications finds on Linux: the
/// applications that the desktop entries describe, each name once.
/// `entries` holds the texts of the `.desktop` files, directory by
/// directory; of two entries of the same name, up to case, the first
/// counts.
pub fn scan_installed_apps(entries: &Vec<String>) -> (apps: Vec<DiscoveredApp>)
    ensures
        app_views(apps@) == first_of_each_name(
            described_by(Source::DesktopEntry, texts(entries@)),
        ),
{
    dedup_by_name(read_all(Source::DesktopEntry, entries))
}

} // verus!
