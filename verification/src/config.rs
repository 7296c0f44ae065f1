//! The configuration document: labels, hotkey chords, appearance and the
//! schema version that gates one-time migrations.

use crate::labels::{LabelView, Labels};
use crate::text::{eq_ignore_ascii_case, same_ignoring_ascii_case};
use std::path::PathBuf;
use vstd::prelude::*;
use vstd::string::*;

verus! {

/// A file-system path of the standard library. Its content is never read here.
#[verifier::external_type_specification]
#[verifier::external_body]
pub struct ExPathBuf(PathBuf);

/// `PathBuf::clone` of the standard library. Believed, not proved: the clone
/// is a copy of the path, equal to it.
pub assume_specification[ <PathBuf as Clone>::clone ](p: &PathBuf) -> (r: PathBuf)
    ensures
        r == *p,
;

pub struct ChordView {
    pub ctrl: bool,
    pub alt: bool,
    pub shift: bool,
    pub key: Seq<char>,
}

/// A hotkey definition: modifier keys plus one key.
#[derive(Debug)]
pub struct KeyChord {
    pub ctrl: bool,
    pub alt: bool,
    pub shift: bool,
    pub key: String,
}

impl View for KeyChord {
    type V = ChordView;

    open spec fn view(&self) -> ChordView {
        ChordView { ctrl: self.ctrl, alt: self.alt, shift: self.shift, key: self.key@ }
    }
}

impl Clone for KeyChord {
    fn clone(&self) -> (r: Self)
        ensures
            r == *self,
    {
        KeyChord { ctrl: self.ctrl, alt: self.alt, shift: self.shift, key: self.key.clone() }
    }
}

pub struct HotkeysView {
    pub edit_title: ChordView,
    pub edit_description: ChordView,
    pub toggle_overlay: ChordView,
    pub snap_position: ChordView,
}

#[derive(Debug)]
pub struct Hotkeys {
    pub edit_title: KeyChord,
    pub edit_description: KeyChord,
    pub toggle_overlay: KeyChord,
    pub snap_position: KeyChord,
}

impl View for Hotkeys {
    type V = HotkeysView;

    open spec fn view(&self) -> HotkeysView {
        HotkeysView {
            edit_title: self.edit_title@,
            edit_description: self.edit_description@,
            toggle_overlay: self.toggle_overlay@,
            snap_position: self.snap_position@,
        }
    }
}

impl Clone for Hotkeys {
    fn clone(&self) -> (r: Self)
        ensures
            r == *self,
    {
        Hotkeys {
            edit_title: self.edit_title.clone(),
            edit_description: self.edit_description.clone(),
            toggle_overlay: self.toggle_overlay.clone(),
            snap_position: self.snap_position.clone(),
        }
    }
}

pub struct AppearanceView {
    pub font_family: Seq<char>,
    pub font_size_dip: u32,
    pub margin_px: i32,
    pub hide_on_fullscreen: bool,
}

#[derive(Debug)]
pub struct Appearance {
    pub font_family: String,
    pub font_size_dip: u32,
    pub margin_px: i32,
    pub hide_on_fullscreen: bool,
}

impl View for Appearance {
    type V = AppearanceView;

    open spec fn view(&self) -> AppearanceView {
        AppearanceView {
            font_family: self.font_family@,
            font_size_dip: self.font_size_dip,
            margin_px: self.margin_px,
            hide_on_fullscreen: self.hide_on_fullscreen,
        }
    }
}

impl Clone for Appearance {
    fn clone(&self) -> (r: Self)
        ensures
            r == *self,
    {
        Appearance {
            font_family: self.font_family.clone(),
            font_size_dip: self.font_size_dip,
            margin_px: self.margin_px,
            hide_on_fullscreen: self.hide_on_fullscreen,
        }
    }
}

pub struct ConfigView {
    pub desktops: Map<Seq<char>, LabelView>,
    pub hotkeys: HotkeysView,
    pub appearance: AppearanceView,
    pub version: Option<u32>,
}

/// The whole configuration document.
#[derive(Debug)]
pub struct Config {
    pub desktops: Labels,
    pub hotkeys: Hotkeys,
    pub appearance: Appearance,
    pub version: Option<u32>,
}

impl View for Config {
    type V = ConfigView;

    open spec fn view(&self) -> ConfigView {
        ConfigView {
            desktops: self.desktops@,
            hotkeys: self.hotkeys@,
            appearance: self.appearance@,
            version: self.version,
        }
    }
}

impl Clone for Config {
    fn clone(&self) -> (r: Self)
        ensures
            r@ == self@,
            r.wf() == self.wf(),
    {
        Config {
            desktops: self.desktops.clone(),
            hotkeys: self.hotkeys.clone(),
            appearance: self.appearance.clone(),
            version: self.version,
        }
    }
}

/// Where the configuration and the logs live.
#[derive(Debug)]
pub struct Paths {
    pub cfg_file: PathBuf,
    pub cfg_dir: PathBuf,
    pub log_dir: PathBuf,
}

impl Clone for Paths {
    fn clone(&self) -> (r: Self)
        ensures
            r == *self,
    {
        Paths {
            cfg_file: self.cfg_file.clone(),
            cfg_dir: self.cfg_dir.clone(),
            log_dir: self.log_dir.clone(),
        }
    }
}

/// Ctrl+Alt plus the given key.
pub open spec fn ctrl_alt(key: Seq<char>) -> ChordView {
    ChordView { ctrl: true, alt: true, shift: false, key }
}

pub open spec fn default_hotkeys() -> HotkeysView {
    HotkeysView {
        edit_title: ctrl_alt(seq!['T']),
        edit_description: ctrl_alt(seq!['D']),
        toggle_overlay: ctrl_alt(seq!['O']),
        snap_position: ctrl_alt(seq!['L']),
    }
}

pub open spec fn default_appearance() -> AppearanceView {
    AppearanceView {
        font_family: seq!['S', 'e', 'g', 'o', 'e', ' ', 'U', 'I'],
        font_size_dip: 16,
        margin_px: 8,
        hide_on_fullscreen: false,
    }
}

/// The document of a user who has configured nothing.
pub open spec fn default_config() -> ConfigView {
    ConfigView {
        desktops: Map::empty(),
        hotkeys: default_hotkeys(),
        appearance: default_appearance(),
        version: None,
    }
}

fn ctrl_alt_chord(key: &str) -> (r: KeyChord)
    ensures
        r@ == ctrl_alt(key@),
{
    KeyChord { ctrl: true, alt: true, shift: false, key: String::from_str(key) }
}

/// The chord that snaps the overlay's position, where a document names none.
pub fn default_snap_key() -> (r: KeyChord)
    ensures
        r@ == ctrl_alt(seq!['L']),
{
    proof {
        reveal_strlit("L");
    }
    let r = ctrl_alt_chord("L");
    assert(r.key@ =~= seq!['L']);
    r
}

impl Default for Config {
    fn default() -> (r: Self)
        ensures
            r.wf(),
            r@ == default_config(),
    {
        proof {
            reveal_strlit("T");
            reveal_strlit("D");
            reveal_strlit("O");
            reveal_strlit("Segoe UI");
        }
        let edit_title = ctrl_alt_chord("T");
        let edit_description = ctrl_alt_chord("D");
        let toggle_overlay = ctrl_alt_chord("O");
        let font_family = String::from_str("Segoe UI");
        assert(edit_title.key@ =~= seq!['T']);
        assert(edit_description.key@ =~= seq!['D']);
        assert(toggle_overlay.key@ =~= seq!['O']);
        assert(font_family@ =~= seq!['S', 'e', 'g', 'o', 'e', ' ', 'U', 'I']);
        Config {
            desktops: Labels::new(),
            hotkeys: Hotkeys {
                edit_title,
                edit_description,
                toggle_overlay,
                snap_position: default_snap_key(),
            },
            appearance: Appearance {
                font_family,
                font_size_dip: 16,
                margin_px: 8,
                hide_on_fullscreen: false,
            },
            version: None,
        }
    }
}

/// Two chords claim the same key combination.
pub open spec fn same_chord(a: ChordView, b: ChordView) -> bool {
    a.ctrl == b.ctrl && a.alt == b.alt && a.shift == b.shift && same_ignoring_ascii_case(
        a.key,
        b.key,
    )
}

/// Two of the three chords that are registered globally claim the same key
/// combination.
pub open spec fn duplicate_chords(h: HotkeysView) -> bool {
    same_chord(h.edit_title, h.edit_description) || same_chord(h.edit_title, h.toggle_overlay)
        || same_chord(h.edit_description, h.toggle_overlay)
}

/// Whether a document is older than the current schema.
pub open spec fn needs_migration(c: ConfigView) -> bool {
    c.version is None || c.version == Some(0u32)
}

/// The snap chord's key after migration: the historical default `S`, in
/// either case, becomes `L`; a key that the user chose stays.
pub open spec fn migrated_snap_key(key: Seq<char>) -> Seq<char> {
    if same_ignoring_ascii_case(key, seq!['S']) {
        seq!['L']
    } else {
        key
    }
}

/// The document after the one-time migration to schema version 1.
pub open spec fn migrated(c: ConfigView) -> ConfigView {
    if needs_migration(c) {
        ConfigView {
            hotkeys: HotkeysView {
                snap_position: ChordView {
                    key: migrated_snap_key(c.hotkeys.snap_position.key),
                    ..c.hotkeys.snap_position
                },
                ..c.hotkeys
            },
            version: Some(1u32),
            ..c
        }
    } else {
        c
    }
}

impl KeyChord {
    /// Whether this chord and `other` claim the same key combination.
    pub fn same_as(&self, other: &KeyChord) -> (r: bool)
        ensures
            r == same_chord(self@, other@),
    {
        self.ctrl == other.ctrl && self.alt == other.alt && self.shift == other.shift
            && eq_ignore_ascii_case(self.key.as_str(), other.key.as_str())
    }
}

impl Hotkeys {
    /// Whether two of the globally registered chords collide.
    pub fn has_duplicates(&self) -> (r: bool)
        ensures
            r == duplicate_chords(self@),
    {
        self.edit_title.same_as(&self.edit_description) || self.edit_title.same_as(
            &self.toggle_overlay,
        ) || self.edit_description.same_as(&self.toggle_overlay)
    }
}

impl Config {
    /// The label store keeps its invariant.
    pub open spec fn wf(&self) -> bool {
        self.desktops.wf()
    }

    /// Brings a document up to schema version 1. The flag says whether
    /// anything was rewritten, so that the caller knows to save it.
    pub fn migrate(self) -> (r: (Config, bool))
        ensures
            r.0@ == migrated(self@),
            r.0.wf() == self.wf(),
            r.1 == needs_migration(self@),
    {
        let mut cfg = self;
        let pending = match cfg.version {
            None => true,
            Some(v) => v == 0,
        };
        if pending {
            proof {
                reveal_strlit("S");
                reveal_strlit("L");
            }
            assert("S"@ =~= seq!['S']);
            if eq_ignore_ascii_case(cfg.hotkeys.snap_position.key.as_str(), "S") {
                cfg.hotkeys.snap_position.key = String::from_str("L");
                assert(cfg.hotkeys.snap_position.key@ =~= seq!['L']);
            }
            cfg.version = Some(1);
        }
        (cfg, pending)
    }
}

/// What reading one configuration file gave.
#[derive(Debug)]
pub enum Stored {
    /// The file does not exist or cannot be read.
    Missing,
    /// The file was read and is no valid document.
    Invalid,
    /// The file holds this document.
    Document(Config),
}

impl Stored {
    pub open spec fn wf(&self) -> bool {
        match self {
            Stored::Document(c) => c.wf(),
            _ => true,
        }
    }
}

/// The outcome of loading: the document to work with and what has to be
/// written back.
#[derive(Debug)]
pub struct Loaded {
    pub config: Config,
    /// The document came from the location of an earlier release and has to
    /// be saved at the current one.
    pub adopted: bool,
    /// The migration rewrote the document: save it.
    pub rewritten: bool,
}

/// The document that loading starts from: the current file where it exists
/// (defaults where it is invalid), else a valid file of an earlier release,
/// else defaults.
pub open spec fn selected(primary: Stored, legacy: Stored) -> ConfigView {
    match primary {
        Stored::Document(c) => c@,
        Stored::Invalid => default_config(),
        Stored::Missing => match legacy {
            Stored::Document(c) => c@,
            _ => default_config(),
        },
    }
}

pub open spec fn adopts_legacy(primary: Stored, legacy: Stored) -> bool {
    primary is Missing && legacy is Document
}

/// Whether the location of an earlier release has to be looked at: only when
/// the current file is missing.
pub fn wants_legacy(primary: &Stored) -> (r: bool)
    ensures
        r == (primary is Missing),
{
    match primary {
        Stored::Missing => true,
        _ => false,
    }
}

/// What a reload after a change on disk gives: the migrated document and
/// whether it has to be saved, or `None` where the file is gone or invalid,
/// so that the caller keeps the document it has.
pub fn reload_from(stored: Stored) -> (r: Option<(Config, bool)>)
    requires
        stored.wf(),
    ensures
        match (stored, r) {
            (Stored::Document(c), Some(pair)) => {
                &&& pair.0@ == migrated(c@)
                &&& pair.0.wf()
                &&& pair.1 == needs_migration(c@)
            },
            (Stored::Document(_), None) => false,
            (_, Some(_)) => false,
            (_, None) => true,
        },
{
    match stored {
        Stored::Document(c) => Some(c.migrate()),
        _ => None,
    }
}

/// Chooses the document to start from and migrates it. Never fails: whatever
/// is wrong with the files, defaults take their place.
pub fn load_from(primary: Stored, legacy: Stored) -> (r: Loaded)
    requires
        primary.wf(),
        legacy.wf(),
    ensures
        r.config.wf(),
        r.config@ == migrated(selected(primary, legacy)),
        r.adopted == adopts_legacy(primary, legacy),
        r.rewritten == needs_migration(selected(primary, legacy)),
{
    let (chosen, adopted) = match primary {
        Stored::Document(c) => (c, false),
        Stored::Invalid => (Config::default(), false),
        Stored::Missing => match legacy {
            Stored::Document(c) => (c, true),
            _ => (Config::default(), false),
        },
    };
    let (config, rewritten) = chosen.migrate();
    Loaded { config, adopted, rewritten }
}

/// A document with no version, or version 0, whose snap key is the historical
/// default comes out with the snap key `L` and version 1, everything else as
/// it was; a later document is left untouched; and migrating twice changes
/// nothing more.
pub proof fn lemma_migration(c: ConfigView)
    ensures
        needs_migration(c) && same_ignoring_ascii_case(c.hotkeys.snap_position.key, seq!['S'])
            ==> migrated(c).hotkeys.snap_position.key == seq!['L'],
        needs_migration(c) ==> migrated(c).version == Some(1u32),
        !needs_migration(c) ==> migrated(c) == c,
        migrated(c).desktops == c.desktops,
        migrated(c).appearance == c.appearance,
        migrated(c).hotkeys.edit_title == c.hotkeys.edit_title,
        migrated(c).hotkeys.edit_description == c.hotkeys.edit_description,
        migrated(c).hotkeys.toggle_overlay == c.hotkeys.toggle_overlay,
        !needs_migration(migrated(c)),
        migrated(migrated(c)) == migrated(c),
{
}

/// The three default chords that are registered globally are pairwise
/// different.
pub proof fn lemma_default_chords_distinct()
    ensures
        !duplicate_chords(default_hotkeys()),
{
    let t = seq!['T'];
    let d = seq!['D'];
    let o = seq!['O'];
    assert(t[0] == 'T' && d[0] == 'D' && o[0] == 'O');
    assert(crate::text::fold_ascii(t[0]) != crate::text::fold_ascii(d[0]));
    assert(crate::text::fold_ascii(t[0]) != crate::text::fold_ascii(o[0]));
    assert(crate::text::fold_ascii(d[0]) != crate::text::fold_ascii(o[0]));
}

} // verus!
