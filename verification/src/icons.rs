//! File-type icons for the interactive result list: a file name resolves to
//! a glyph and a color, by its exact name first and by its extension second.
//! The built-in catalog, split below into alphabetical groups, carries the
//! known names and extensions; a name it does not know falls back to the
//! generic file (or directory) icon.

use vstd::prelude::*;
use vstd::string::StrSliceExecFns;
use vstd::string::StringExecFns;

verus! {

/// A file name split for icon lookup: the name after the last path
/// separator, and its extension, already lowercased.
#[derive(Debug, Clone)]
pub struct File {
    pub name: String,
    pub ext: Option<String>,
}

/// One glyph of the icon font together with its color, as `#rrggbb`.
#[derive(Debug, Clone, Copy)]
pub struct FileIcon {
    pub icon: char,
    pub color: &'static str,
}

/// The position of the last occurrence of `c`, if any.
pub open spec fn spec_rfind(s: Seq<char>, c: char) -> Option<int>
    decreases s.len(),
{
    if s.len() == 0 {
        Option::None
    } else if s.last() == c {
        Option::Some(s.len() - 1)
    } else {
        spec_rfind(s.drop_last(), c)
    }
}

/// The position of the last occurrence of `c` in `s`, if any.
fn rfind_char(s: &str, c: char) -> (r: Option<usize>)
    ensures
        match r {
            Option::Some(i) => spec_rfind(s@, c) == Option::Some(i as int) && i < s@.len(),
            Option::None => spec_rfind(s@, c) is None,
        },
{
    let mut j = s.unicode_len();
    proof {
        assert(s@.take(j as int) =~= s@);
    }
    while j > 0
        invariant
            j <= s@.len(),
            spec_rfind(s@, c) == spec_rfind(s@.take(j as int), c),
        decreases j,
    {
        proof {
            assert(s@.take(j as int).last() == s@[j - 1]);
            assert(s@.take(j as int).drop_last() =~= s@.take(j - 1));
        }
        if s.get_char(j - 1) == c {
            return Some(j - 1);
        }
        j = j - 1;
    }
    proof {
        assert(s@.take(0) =~= Seq::<char>::empty());
    }
    None
}

/// The ASCII-lowercased form of one character; anything outside `A`..`Z` is
/// itself.
pub open spec fn spec_lower_char(c: char) -> char {
    match c {
        'A' => 'a',
        'B' => 'b',
        'C' => 'c',
        'D' => 'd',
        'E' => 'e',
        'F' => 'f',
        'G' => 'g',
        'H' => 'h',
        'I' => 'i',
        'J' => 'j',
        'K' => 'k',
        'L' => 'l',
        'M' => 'm',
        'N' => 'n',
        'O' => 'o',
        'P' => 'p',
        'Q' => 'q',
        'R' => 'r',
        'S' => 's',
        'T' => 't',
        'U' => 'u',
        'V' => 'v',
        'W' => 'w',
        'X' => 'x',
        'Y' => 'y',
        'Z' => 'z',
        _ => c,
    }
}

fn lower_char(c: char) -> (r: char)
    ensures
        r == spec_lower_char(c),
{
    match c {
        'A' => 'a',
        'B' => 'b',
        'C' => 'c',
        'D' => 'd',
        'E' => 'e',
        'F' => 'f',
        'G' => 'g',
        'H' => 'h',
        'I' => 'i',
        'J' => 'j',
        'K' => 'k',
        'L' => 'l',
        'M' => 'm',
        'N' => 'n',
        'O' => 'o',
        'P' => 'p',
        'Q' => 'q',
        'R' => 'r',
        'S' => 's',
        'T' => 't',
        'U' => 'u',
        'V' => 'v',
        'W' => 'w',
        'X' => 'x',
        'Y' => 'y',
        'Z' => 'z',
        _ => c,
    }
}

/// Relies on std's `String::push`: appends one character at the end.
#[verifier::external_body]
fn string_push(s: &mut String, c: char)
    ensures
        final(s)@ == old(s)@.push(c),
{
    s.push(c)
}

/// The ASCII-lowercased form of a character sequence.
pub open spec fn spec_lowercase(s: Seq<char>) -> Seq<char> {
    s.map_values(|c: char| spec_lower_char(c))
}

/// ASCII-lowercase a string slice.
fn lowercase(s: &str) -> (r: String)
    ensures
        r@ == spec_lowercase(s@),
{
    let mut out = String::new();
    let len = s.unicode_len();
    let mut i: usize = 0;
    proof {
        assert(out@ =~= spec_lowercase(s@).take(0));
    }
    while i < len
        invariant
            len == s@.len(),
            i <= len,
            out@ == spec_lowercase(s@).take(i as int),
        decreases len - i,
    {
        let c = lower_char(s.get_char(i));
        string_push(&mut out, c);
        proof {
            assert(out@ =~= spec_lowercase(s@).take(i + 1));
        }
        i = i + 1;
    }
    proof {
        assert(spec_lowercase(s@).take(len as int) =~= spec_lowercase(s@));
    }
    out
}

/// A path without its trailing separators.
pub open spec fn spec_trim_separators(path: Seq<char>) -> Seq<char>
    decreases path.len(),
{
    if path.len() > 0 && path.last() == '/' {
        spec_trim_separators(path.drop_last())
    } else {
        path
    }
}

/// The file name of a path: its last component — what follows the last
/// separator once trailing separators are dropped. A path with no component
/// left (the root, or nothing but separators) yields the empty name.
pub open spec fn spec_file_name(path: Seq<char>) -> Seq<char> {
    let trimmed = spec_trim_separators(path);
    match spec_rfind(trimmed, '/') {
        Option::Some(i) => trimmed.subrange(i + 1, trimmed.len() as int),
        Option::None => trimmed,
    }
}

/// The extension of a file name, lowercased: what follows the last dot, so a
/// leading-dot name such as `.bashrc` has extension `bashrc`.
pub open spec fn spec_file_ext(name: Seq<char>) -> Option<Seq<char>> {
    match spec_rfind(name, '.') {
        Option::Some(i) => Option::Some(
            spec_lowercase(name.subrange(i + 1, name.len() as int)),
        ),
        Option::None => Option::None,
    }
}

impl File {
    /// Split a path for icon lookup.
    pub fn new(path: &str) -> (f: File)
        ensures
            f.name@ == spec_file_name(path@),
            match f.ext {
                Option::Some(e) => spec_file_ext(spec_file_name(path@)) == Option::Some(e@),
                Option::None => spec_file_ext(spec_file_name(path@)) is None,
            },
    {
        let full = path.unicode_len();
        let mut end = full;
        proof {
            assert(path@.take(full as int) =~= path@);
        }
        while end > 0 && path.get_char(end - 1) == '/'
            invariant
                end <= path@.len(),
                spec_trim_separators(path@) == spec_trim_separators(path@.take(end as int)),
            decreases end,
        {
            proof {
                assert(path@.take(end as int).last() == path@[end - 1]);
                assert(path@.take(end as int).drop_last() =~= path@.take(end - 1));
            }
            end = end - 1;
        }
        proof {
            if end > 0 {
                assert(path@.take(end as int).last() == path@[end - 1]);
            }
            assert(spec_trim_separators(path@.take(end as int)) == path@.take(end as int));
        }
        let trimmed = path.substring_char(0, end);
        proof {
            assert(trimmed@ =~= path@.take(end as int));
        }
        let len = trimmed.unicode_len();
        let name: String = match rfind_char(trimmed, '/') {
            Some(i) => trimmed.substring_char(i + 1, len).to_owned(),
            None => trimmed.to_owned(),
        };
        let ext = Self::ext(name.as_str());
        File { name, ext }
    }

    /// The lowercased extension of a file name: what follows the last dot.
    pub fn ext(name: &str) -> (e: Option<String>)
        ensures
            match e {
                Option::Some(e) => spec_file_ext(name@) == Option::Some(e@),
                Option::None => spec_file_ext(name@) is None,
            },
    {
        let len = name.unicode_len();
        match rfind_char(name, '.') {
            Some(i) => Some(lowercase(name.substring_char(i + 1, len))),
            None => None,
        }
    }

    /// Whether the name can only be a directory's: it ends in a separator.
    pub fn points_to_directory(&self) -> (r: bool)
        ensures
            r == (self.name@.len() > 0 && self.name@.last() == '/'),
    {
        let len = self.name.as_str().unicode_len();
        len > 0 && self.name.as_str().get_char(len - 1) == '/'
    }
}

/// The catalog's names that do not start with a lowercase letter — dotfiles and named files.
pub open spec fn spec_catalog_special(key: Seq<char>) -> Option<FileIcon> {
    if key == ".SRCINFO"@ {
        Option::Some(FileIcon { icon: '\u{f08c7}', color: "#0f94d2" })
    } else if key == ".Xauthority"@ {
        Option::Some(FileIcon { icon: '\u{f369}', color: "#e54d18" })
    } else if key == ".Xresources"@ {
        Option::Some(FileIcon { icon: '\u{f369}', color: "#e54d18" })
    } else if key == ".babelrc"@ {
        Option::Some(FileIcon { icon: '\u{e639}', color: "#cbcb41" })
    } else if key == ".bash_profile"@ {
        Option::Some(FileIcon { icon: '\u{e615}', color: "#89e051" })
    } else if key == ".bashrc"@ {
        Option::Some(FileIcon { icon: '\u{e615}', color: "#89e051" })
    } else if key == ".dockerignore"@ {
        Option::Some(FileIcon { icon: '\u{f0868}', color: "#458ee6" })
    } else if key == ".ds_store"@ {
        Option::Some(FileIcon { icon: '\u{e615}', color: "#41535b" })
    } else if key == ".editorconfig"@ {
        Option::Some(FileIcon { icon: '\u{e652}', color: "#fff2f2" })
    } else if key == ".env"@ {
        Option::Some(FileIcon { icon: '\u{f462}', color: "#faf743" })
    } else if key == ".eslintignore"@ {
        Option::Some(FileIcon { icon: '\u{e655}', color: "#4b32c3" })
    } else if key == ".eslintrc"@ {
        Option::Some(FileIcon { icon: '\u{e655}', color: "#4b32c3" })
    } else if key == ".git-blame-ignore-revs"@ {
        Option::Some(FileIcon { icon: '\u{e702}', color: "#f54d27" })
    } else if key == ".gitattributes"@ {
        Option::Some(FileIcon { icon: '\u{e702}', color: "#f54d27" })
    } else if key == ".gitconfig"@ {
        Option::Some(FileIcon { icon: '\u{e615}', color: "#f54d27" })
    } else if key == ".gitignore"@ {
        Option::Some(FileIcon { icon: '\u{e702}', color: "#f54d27" })
    } else if key == ".gitlab-ci.yml"@ {
        Option::Some(FileIcon { icon: '\u{f296}', color: "#e24329" })
    } else if key == ".gitmodules"@ {
        Option::Some(FileIcon { icon: '\u{e702}', color: "#f54d27" })
    } else if key == ".gtkrc-2.0"@ {
        Option::Some(FileIcon { icon: '\u{f362}', color: "#ffffff" })
    } else if key == ".gvimrc"@ {
        Option::Some(FileIcon { icon: '\u{e62b}', color: "#019833" })
    } else if key == ".justfile"@ {
        Option::Some(FileIcon { icon: '\u{f0ad}', color: "#6d8086" })
    } else if key == ".luaurc"@ {
        Option::Some(FileIcon { icon: '\u{e615}', color: "#00a2ff" })
    } else if key == ".mailmap"@ {
        Option::Some(FileIcon { icon: '\u{f02a2}', color: "#f54d27" })
    } else if key == ".npmignore"@ {
        Option::Some(FileIcon { icon: '\u{e71e}', color: "#E8274B" })
    } else if key == ".npmrc"@ {
        Option::Some(FileIcon { icon: '\u{e71e}', color: "#E8274B" })
    } else if key == ".nuxtrc"@ {
        Option::Some(FileIcon { icon: '\u{f1106}', color: "#00c58e" })
    } else if key == ".nvmrc"@ {
        Option::Some(FileIcon { icon: '\u{e718}', color: "#5FA04E" })
    } else if key == ".prettierignore"@ {
        Option::Some(FileIcon { icon: '\u{e6b4}', color: "#4285F4" })
    } else if key == ".prettierrc"@ {
        Option::Some(FileIcon { icon: '\u{e6b4}', color: "#4285F4" })
    } else if key == ".prettierrc.json"@ {
        Option::Some(FileIcon { icon: '\u{e6b4}', color: "#4285F4" })
    } else if key == ".prettierrc.json5"@ {
        Option::Some(FileIcon { icon: '\u{e6b4}', color: "#4285F4" })
    } else if key == ".prettierrc.toml"@ {
        Option::Some(FileIcon { icon: '\u{e6b4}', color: "#4285F4" })
    } else if key == ".prettierrc.yaml"@ {
        Option::Some(FileIcon { icon: '\u{e6b4}', color: "#4285F4" })
    } else if key == ".prettierrc.yml"@ {
        Option::Some(FileIcon { icon: '\u{e6b4}', color: "#4285F4" })
    } else if key == ".settings.json"@ {
        Option::Some(FileIcon { icon: '\u{e70c}', color: "#854CC7" })
    } else if key == ".vimrc"@ {
        Option::Some(FileIcon { icon: '\u{e62b}', color: "#019833" })
    } else if key == ".xinitrc"@ {
        Option::Some(FileIcon { icon: '\u{f369}', color: "#e54d18" })
    } else if key == ".xsession"@ {
        Option::Some(FileIcon { icon: '\u{f369}', color: "#e54d18" })
    } else if key == ".zprofile"@ {
        Option::Some(FileIcon { icon: '\u{e615}', color: "#89e051" })
    } else if key == ".zshenv"@ {
        Option::Some(FileIcon { icon: '\u{e615}', color: "#89e051" })
    } else if key == ".zshrc"@ {
        Option::Some(FileIcon { icon: '\u{e615}', color: "#89e051" })
    } else if key == "3gp"@ {
        Option::Some(FileIcon { icon: '\u{e69f}', color: "#FD971F" })
    } else if key == "3mf"@ {
        Option::Some(FileIcon { icon: '\u{f01a7}', color: "#888888" })
    } else if key == "7z"@ {
        Option::Some(FileIcon { icon: '\u{f410}', color: "#eca517" })
    } else if key == "Dockerfile"@ {
        Option::Some(FileIcon { icon: '\u{f0868}', color: "#458ee6" })
    } else if key == "FreeCAD.conf"@ {
        Option::Some(FileIcon { icon: '\u{f336}', color: "#CB333B" })
    } else if key == "PKGBUILD"@ {
        Option::Some(FileIcon { icon: '\u{f303}', color: "#0f94d2" })
    } else if key == "PrusaSlicer.ini"@ {
        Option::Some(FileIcon { icon: '\u{f351}', color: "#ec6b23" })
    } else if key == "PrusaSlicerGcodeViewer.ini"@ {
        Option::Some(FileIcon { icon: '\u{f351}', color: "#ec6b23" })
    } else if key == "QtProject.conf"@ {
        Option::Some(FileIcon { icon: '\u{f375}', color: "#40cd52" })
    } else if key == "R"@ {
        Option::Some(FileIcon { icon: '\u{f07d4}', color: "#2266ba" })
    } else if key == "_gvimrc"@ {
        Option::Some(FileIcon { icon: '\u{e62b}', color: "#019833" })
    } else if key == "_vimrc"@ {
        Option::Some(FileIcon { icon: '\u{e62b}', color: "#019833" })
    } else if key == "🔥"@ {
        Option::Some(FileIcon { icon: '\u{f06d}', color: "#ff4c1f" })
    } else {
        Option::None
    }
}

/// The catalog's keys from a through c.
pub open spec fn spec_catalog_a_to_c(key: Seq<char>) -> Option<FileIcon> {
    if key == "a"@ {
        Option::Some(FileIcon { icon: '\u{eb9c}', color: "#dcddd6" })
    } else if key == "aac"@ {
        Option::Some(FileIcon { icon: '\u{f001}', color: "#00afff" })
    } else if key == "ai"@ {
        Option::Some(FileIcon { icon: '\u{e7b4}', color: "#cbcb41" })
    } else if key == "aif"@ {
        Option::Some(FileIcon { icon: '\u{f001}', color: "#00afff" })
    } else if key == "aiff"@ {
        Option::Some(FileIcon { icon: '\u{f001}', color: "#00afff" })
    } else if key == "android"@ {
        Option::Some(FileIcon { icon: '\u{e70e}', color: "#34a853" })
    } else if key == "ape"@ {
        Option::Some(FileIcon { icon: '\u{f001}', color: "#00afff" })
    } else if key == "apk"@ {
        Option::Some(FileIcon { icon: '\u{e70e}', color: "#34a853" })
    } else if key == "apl"@ {
        Option::Some(FileIcon { icon: '\u{235d}', color: "#ffa500" })
    } else if key == "app"@ {
        Option::Some(FileIcon { icon: '\u{eae8}', color: "#9F0500" })
    } else if key == "applescript"@ {
        Option::Some(FileIcon { icon: '\u{f179}', color: "#6d8085" })
    } else if key == "asc"@ {
        Option::Some(FileIcon { icon: '\u{f099d}', color: "#576d7f" })
    } else if key == "ass"@ {
        Option::Some(FileIcon { icon: '\u{f0a16}', color: "#ffb713" })
    } else if key == "astro"@ {
        Option::Some(FileIcon { icon: '\u{e6b3}', color: "#e23f67" })
    } else if key == "avif"@ {
        Option::Some(FileIcon { icon: '\u{e60d}', color: "#a074c4" })
    } else if key == "awk"@ {
        Option::Some(FileIcon { icon: '\u{e795}', color: "#4d5a5e" })
    } else if key == "azcli"@ {
        Option::Some(FileIcon { icon: '\u{ebe8}', color: "#0078d4" })
    } else if key == "bak"@ {
        Option::Some(FileIcon { icon: '\u{f006f}', color: "#6d8086" })
    } else if key == "bash"@ {
        Option::Some(FileIcon { icon: '\u{e795}', color: "#89e051" })
    } else if key == "bat"@ {
        Option::Some(FileIcon { icon: '\u{e615}', color: "#C1F12E" })
    } else if key == "bazel"@ {
        Option::Some(FileIcon { icon: '\u{e63a}', color: "#89e051" })
    } else if key == "bib"@ {
        Option::Some(FileIcon { icon: '\u{f125f}', color: "#cbcb41" })
    } else if key == "bicep"@ {
        Option::Some(FileIcon { icon: '\u{e63b}', color: "#519aba" })
    } else if key == "bicepparam"@ {
        Option::Some(FileIcon { icon: '\u{e63b}', color: "#9f74b3" })
    } else if key == "bin"@ {
        Option::Some(FileIcon { icon: '\u{eae8}', color: "#9F0500" })
    } else if key == "blade.php"@ {
        Option::Some(FileIcon { icon: '\u{f2f7}', color: "#f05340" })
    } else if key == "blend"@ {
        Option::Some(FileIcon { icon: '\u{f00ab}', color: "#ea7600" })
    } else if key == "blp"@ {
        Option::Some(FileIcon { icon: '\u{f0ebe}', color: "#5796E2" })
    } else if key == "bmp"@ {
        Option::Some(FileIcon { icon: '\u{e60d}', color: "#a074c4" })
    } else if key == "bqn"@ {
        Option::Some(FileIcon { icon: '\u{2389}', color: "#2b7067" })
    } else if key == "brep"@ {
        Option::Some(FileIcon { icon: '\u{f0eeb}', color: "#839463" })
    } else if key == "brewfile"@ {
        Option::Some(FileIcon { icon: '\u{e791}', color: "#701516" })
    } else if key == "bspwmrc"@ {
        Option::Some(FileIcon { icon: '\u{f355}', color: "#2f2f2f" })
    } else if key == "build"@ {
        Option::Some(FileIcon { icon: '\u{e63a}', color: "#89e051" })
    } else if key == "build.gradle"@ {
        Option::Some(FileIcon { icon: '\u{e660}', color: "#005f87" })
    } else if key == "build.zig.zon"@ {
        Option::Some(FileIcon { icon: '\u{e6a9}', color: "#f69a1b" })
    } else if key == "bz"@ {
        Option::Some(FileIcon { icon: '\u{f410}', color: "#eca517" })
    } else if key == "bz2"@ {
        Option::Some(FileIcon { icon: '\u{f410}', color: "#eca517" })
    } else if key == "bz3"@ {
        Option::Some(FileIcon { icon: '\u{f410}', color: "#eca517" })
    } else if key == "bzl"@ {
        Option::Some(FileIcon { icon: '\u{e63a}', color: "#89e051" })
    } else if key == "c"@ {
        Option::Some(FileIcon { icon: '\u{e61e}', color: "#599eff" })
    } else if key == "c++"@ {
        Option::Some(FileIcon { icon: '\u{e61d}', color: "#f34b7d" })
    } else if key == "cache"@ {
        Option::Some(FileIcon { icon: '\u{f49b}', color: "#ffffff" })
    } else if key == "cantorrc"@ {
        Option::Some(FileIcon { icon: '\u{f373}', color: "#1c99f3" })
    } else if key == "cast"@ {
        Option::Some(FileIcon { icon: '\u{e69f}', color: "#FD971F" })
    } else if key == "cbl"@ {
        Option::Some(FileIcon { icon: '\u{2699}', color: "#005ca5" })
    } else if key == "cc"@ {
        Option::Some(FileIcon { icon: '\u{e61d}', color: "#f34b7d" })
    } else if key == "ccm"@ {
        Option::Some(FileIcon { icon: '\u{e61d}', color: "#f34b7d" })
    } else if key == "cfg"@ {
        Option::Some(FileIcon { icon: '\u{e615}', color: "#6d8086" })
    } else if key == "checkhealth"@ {
        Option::Some(FileIcon { icon: '\u{f04d9}', color: "#75B4FB" })
    } else if key == "cjs"@ {
        Option::Some(FileIcon { icon: '\u{e60c}', color: "#cbcb41" })
    } else if key == "clj"@ {
        Option::Some(FileIcon { icon: '\u{e768}', color: "#8dc149" })
    } else if key == "cljc"@ {
        Option::Some(FileIcon { icon: '\u{e768}', color: "#8dc149" })
    } else if key == "cljd"@ {
        Option::Some(FileIcon { icon: '\u{e76a}', color: "#519aba" })
    } else if key == "cljs"@ {
        Option::Some(FileIcon { icon: '\u{e76a}', color: "#519aba" })
    } else if key == "cmake"@ {
        Option::Some(FileIcon { icon: '\u{e615}', color: "#6d8086" })
    } else if key == "cmakelists.txt"@ {
        Option::Some(FileIcon { icon: '\u{e615}', color: "#6d8086" })
    } else if key == "cob"@ {
        Option::Some(FileIcon { icon: '\u{2699}', color: "#005ca5" })
    } else if key == "cobol"@ {
        Option::Some(FileIcon { icon: '\u{2699}', color: "#005ca5" })
    } else if key == "code_of_conduct"@ {
        Option::Some(FileIcon { icon: '\u{f4ae}', color: "#E41662" })
    } else if key == "code_of_conduct.md"@ {
        Option::Some(FileIcon { icon: '\u{f4ae}', color: "#E41662" })
    } else if key == "coffee"@ {
        Option::Some(FileIcon { icon: '\u{e61b}', color: "#cbcb41" })
    } else if key == "commit_editmsg"@ {
        Option::Some(FileIcon { icon: '\u{e702}', color: "#f54d27" })
    } else if key == "commitlint.config.js"@ {
        Option::Some(FileIcon { icon: '\u{f0718}', color: "#2b9689" })
    } else if key == "commitlint.config.ts"@ {
        Option::Some(FileIcon { icon: '\u{f0718}', color: "#2b9689" })
    } else if key == "compose.yaml"@ {
        Option::Some(FileIcon { icon: '\u{f0868}', color: "#458ee6" })
    } else if key == "compose.yml"@ {
        Option::Some(FileIcon { icon: '\u{f0868}', color: "#458ee6" })
    } else if key == "conf"@ {
        Option::Some(FileIcon { icon: '\u{e615}', color: "#6d8086" })
    } else if key == "config"@ {
        Option::Some(FileIcon { icon: '\u{e615}', color: "#6d8086" })
    } else if key == "config.ru"@ {
        Option::Some(FileIcon { icon: '\u{e791}', color: "#701516" })
    } else if key == "containerfile"@ {
        Option::Some(FileIcon { icon: '\u{f0868}', color: "#458ee6" })
    } else if key == "copying"@ {
        Option::Some(FileIcon { icon: '\u{e60a}', color: "#cbcb41" })
    } else if key == "copying.lesser"@ {
        Option::Some(FileIcon { icon: '\u{e60a}', color: "#cbcb41" })
    } else if key == "cow"@ {
        Option::Some(FileIcon { icon: '\u{f019a}', color: "#965824" })
    } else if key == "cp"@ {
        Option::Some(FileIcon { icon: '\u{e61d}', color: "#519aba" })
    } else if key == "cpp"@ {
        Option::Some(FileIcon { icon: '\u{e61d}', color: "#519aba" })
    } else if key == "cppm"@ {
        Option::Some(FileIcon { icon: '\u{e61d}', color: "#519aba" })
    } else if key == "cpy"@ {
        Option::Some(FileIcon { icon: '\u{2699}', color: "#005ca5" })
    } else if key == "cr"@ {
        Option::Some(FileIcon { icon: '\u{e62f}', color: "#c8c8c8" })
    } else if key == "crdownload"@ {
        Option::Some(FileIcon { icon: '\u{f019}', color: "#44cda8" })
    } else if key == "cs"@ {
        Option::Some(FileIcon { icon: '\u{f031b}', color: "#596706" })
    } else if key == "csh"@ {
        Option::Some(FileIcon { icon: '\u{e795}', color: "#4d5a5e" })
    } else if key == "cshtml"@ {
        Option::Some(FileIcon { icon: '\u{f1997}', color: "#512bd4" })
    } else if key == "cson"@ {
        Option::Some(FileIcon { icon: '\u{e60b}', color: "#cbcb41" })
    } else if key == "csproj"@ {
        Option::Some(FileIcon { icon: '\u{f0aae}', color: "#512bd4" })
    } else if key == "css"@ {
        Option::Some(FileIcon { icon: '\u{e749}', color: "#42a5f5" })
    } else if key == "csv"@ {
        Option::Some(FileIcon { icon: '\u{e64a}', color: "#89e051" })
    } else if key == "cts"@ {
        Option::Some(FileIcon { icon: '\u{e628}', color: "#519aba" })
    } else if key == "cu"@ {
        Option::Some(FileIcon { icon: '\u{e64b}', color: "#89e051" })
    } else if key == "cue"@ {
        Option::Some(FileIcon { icon: '\u{f0cb9}', color: "#ed95ae" })
    } else if key == "cuh"@ {
        Option::Some(FileIcon { icon: '\u{e64b}', color: "#a074c4" })
    } else if key == "cxx"@ {
        Option::Some(FileIcon { icon: '\u{e61d}', color: "#519aba" })
    } else if key == "cxxm"@ {
        Option::Some(FileIcon { icon: '\u{e61d}', color: "#519aba" })
    } else {
        Option::None
    }
}

/// The catalog's keys from d through g.
pub open spec fn spec_catalog_d_to_g(key: Seq<char>) -> Option<FileIcon> {
    if key == "d"@ {
        Option::Some(FileIcon { icon: '\u{e7af}', color: "#427819" })
    } else if key == "d.ts"@ {
        Option::Some(FileIcon { icon: '\u{e628}', color: "#d59855" })
    } else if key == "dart"@ {
        Option::Some(FileIcon { icon: '\u{e798}', color: "#03589C" })
    } else if key == "db"@ {
        Option::Some(FileIcon { icon: '\u{e706}', color: "#dad8d8" })
    } else if key == "dconf"@ {
        Option::Some(FileIcon { icon: '\u{f361}', color: "#ffffff" })
    } else if key == "desktop"@ {
        Option::Some(FileIcon { icon: '\u{f108}', color: "#563d7c" })
    } else if key == "diff"@ {
        Option::Some(FileIcon { icon: '\u{e728}', color: "#41535b" })
    } else if key == "dll"@ {
        Option::Some(FileIcon { icon: '\u{eb9c}', color: "#4d2c0b" })
    } else if key == "doc"@ {
        Option::Some(FileIcon { icon: '\u{f022c}', color: "#185abd" })
    } else if key == "docker-compose.yaml"@ {
        Option::Some(FileIcon { icon: '\u{f0868}', color: "#458ee6" })
    } else if key == "docker-compose.yml"@ {
        Option::Some(FileIcon { icon: '\u{f0868}', color: "#458ee6" })
    } else if key == "dockerfile"@ {
        Option::Some(FileIcon { icon: '\u{f0868}', color: "#458ee6" })
    } else if key == "docx"@ {
        Option::Some(FileIcon { icon: '\u{f022c}', color: "#185abd" })
    } else if key == "dot"@ {
        Option::Some(FileIcon { icon: '\u{f1049}', color: "#30638e" })
    } else if key == "download"@ {
        Option::Some(FileIcon { icon: '\u{f019}', color: "#44cda8" })
    } else if key == "drl"@ {
        Option::Some(FileIcon { icon: '\u{e28c}', color: "#ffafaf" })
    } else if key == "dropbox"@ {
        Option::Some(FileIcon { icon: '\u{e707}', color: "#0061FE" })
    } else if key == "dump"@ {
        Option::Some(FileIcon { icon: '\u{e706}', color: "#dad8d8" })
    } else if key == "dwg"@ {
        Option::Some(FileIcon { icon: '\u{f0eeb}', color: "#839463" })
    } else if key == "dxf"@ {
        Option::Some(FileIcon { icon: '\u{f0eeb}', color: "#839463" })
    } else if key == "ebook"@ {
        Option::Some(FileIcon { icon: '\u{e28b}', color: "#eab16d" })
    } else if key == "edn"@ {
        Option::Some(FileIcon { icon: '\u{e76a}', color: "#519aba" })
    } else if key == "eex"@ {
        Option::Some(FileIcon { icon: '\u{e62d}', color: "#a074c4" })
    } else if key == "ejs"@ {
        Option::Some(FileIcon { icon: '\u{e60e}', color: "#cbcb41" })
    } else if key == "el"@ {
        Option::Some(FileIcon { icon: '\u{e632}', color: "#8172be" })
    } else if key == "elc"@ {
        Option::Some(FileIcon { icon: '\u{e632}', color: "#8172be" })
    } else if key == "elf"@ {
        Option::Some(FileIcon { icon: '\u{eae8}', color: "#9F0500" })
    } else if key == "elm"@ {
        Option::Some(FileIcon { icon: '\u{e62c}', color: "#519aba" })
    } else if key == "eln"@ {
        Option::Some(FileIcon { icon: '\u{e632}', color: "#8172be" })
    } else if key == "env"@ {
        Option::Some(FileIcon { icon: '\u{f462}', color: "#faf743" })
    } else if key == "eot"@ {
        Option::Some(FileIcon { icon: '\u{f031}', color: "#ECECEC" })
    } else if key == "epp"@ {
        Option::Some(FileIcon { icon: '\u{e631}', color: "#FFA61A" })
    } else if key == "epub"@ {
        Option::Some(FileIcon { icon: '\u{e28b}', color: "#eab16d" })
    } else if key == "erb"@ {
        Option::Some(FileIcon { icon: '\u{e60e}', color: "#701516" })
    } else if key == "erl"@ {
        Option::Some(FileIcon { icon: '\u{e7b1}', color: "#B83998" })
    } else if key == "eslint.config.cjs"@ {
        Option::Some(FileIcon { icon: '\u{e655}', color: "#4b32c3" })
    } else if key == "eslint.config.js"@ {
        Option::Some(FileIcon { icon: '\u{e655}', color: "#4b32c3" })
    } else if key == "eslint.config.mjs"@ {
        Option::Some(FileIcon { icon: '\u{e655}', color: "#4b32c3" })
    } else if key == "eslint.config.ts"@ {
        Option::Some(FileIcon { icon: '\u{e655}', color: "#4b32c3" })
    } else if key == "ex"@ {
        Option::Some(FileIcon { icon: '\u{e62d}', color: "#a074c4" })
    } else if key == "exe"@ {
        Option::Some(FileIcon { icon: '\u{eae8}', color: "#9F0500" })
    } else if key == "exs"@ {
        Option::Some(FileIcon { icon: '\u{e62d}', color: "#a074c4" })
    } else if key == "ext_typoscript_setup.txt"@ {
        Option::Some(FileIcon { icon: '\u{e772}', color: "#FF8700" })
    } else if key == "f#"@ {
        Option::Some(FileIcon { icon: '\u{e7a7}', color: "#519aba" })
    } else if key == "f3d"@ {
        Option::Some(FileIcon { icon: '\u{f0eeb}', color: "#839463" })
    } else if key == "f90"@ {
        Option::Some(FileIcon { icon: '\u{f121a}', color: "#734f96" })
    } else if key == "favicon.ico"@ {
        Option::Some(FileIcon { icon: '\u{e623}', color: "#cbcb41" })
    } else if key == "fbx"@ {
        Option::Some(FileIcon { icon: '\u{f01a7}', color: "#888888" })
    } else if key == "fcbak"@ {
        Option::Some(FileIcon { icon: '\u{f336}', color: "#cb333b" })
    } else if key == "fcmacro"@ {
        Option::Some(FileIcon { icon: '\u{f336}', color: "#cb333b" })
    } else if key == "fcmat"@ {
        Option::Some(FileIcon { icon: '\u{f336}', color: "#cb333b" })
    } else if key == "fcparam"@ {
        Option::Some(FileIcon { icon: '\u{f336}', color: "#cb333b" })
    } else if key == "fcscript"@ {
        Option::Some(FileIcon { icon: '\u{f336}', color: "#cb333b" })
    } else if key == "fcstd"@ {
        Option::Some(FileIcon { icon: '\u{f336}', color: "#cb333b" })
    } else if key == "fcstd1"@ {
        Option::Some(FileIcon { icon: '\u{f336}', color: "#cb333b" })
    } else if key == "fctb"@ {
        Option::Some(FileIcon { icon: '\u{f336}', color: "#cb333b" })
    } else if key == "fctl"@ {
        Option::Some(FileIcon { icon: '\u{f336}', color: "#cb333b" })
    } else if key == "fdmdownload"@ {
        Option::Some(FileIcon { icon: '\u{f019}', color: "#44cda8" })
    } else if key == "fish"@ {
        Option::Some(FileIcon { icon: '\u{e795}', color: "#4d5a5e" })
    } else if key == "flac"@ {
        Option::Some(FileIcon { icon: '\u{f001}', color: "#0075aa" })
    } else if key == "flc"@ {
        Option::Some(FileIcon { icon: '\u{f031}', color: "#ECECEC" })
    } else if key == "flf"@ {
        Option::Some(FileIcon { icon: '\u{f031}', color: "#ECECEC" })
    } else if key == "fnl"@ {
        Option::Some(FileIcon { icon: '\u{e6af}', color: "#fff3d7" })
    } else if key == "fp-info-cache"@ {
        Option::Some(FileIcon { icon: '\u{f34c}', color: "#ffffff" })
    } else if key == "fp-lib-table"@ {
        Option::Some(FileIcon { icon: '\u{f34c}', color: "#ffffff" })
    } else if key == "fs"@ {
        Option::Some(FileIcon { icon: '\u{e7a7}', color: "#519aba" })
    } else if key == "fsi"@ {
        Option::Some(FileIcon { icon: '\u{e7a7}', color: "#519aba" })
    } else if key == "fsscript"@ {
        Option::Some(FileIcon { icon: '\u{e7a7}', color: "#519aba" })
    } else if key == "fsx"@ {
        Option::Some(FileIcon { icon: '\u{e7a7}', color: "#519aba" })
    } else if key == "gcode"@ {
        Option::Some(FileIcon { icon: '\u{f042b}', color: "#1471ad" })
    } else if key == "gd"@ {
        Option::Some(FileIcon { icon: '\u{e65f}', color: "#6d8086" })
    } else if key == "gemfile$"@ {
        Option::Some(FileIcon { icon: '\u{e791}', color: "#701516" })
    } else if key == "gemspec"@ {
        Option::Some(FileIcon { icon: '\u{e791}', color: "#701516" })
    } else if key == "gif"@ {
        Option::Some(FileIcon { icon: '\u{e60d}', color: "#a074c4" })
    } else if key == "git"@ {
        Option::Some(FileIcon { icon: '\u{e702}', color: "#F14C28" })
    } else if key == "glb"@ {
        Option::Some(FileIcon { icon: '\u{f1b2}', color: "#FFB13B" })
    } else if key == "gleam"@ {
        Option::Some(FileIcon { icon: '\u{f005}', color: "#ffaff3" })
    } else if key == "gnumakefile"@ {
        Option::Some(FileIcon { icon: '\u{e779}', color: "#6d8086" })
    } else if key == "go"@ {
        Option::Some(FileIcon { icon: '\u{e627}', color: "#519aba" })
    } else if key == "go.mod"@ {
        Option::Some(FileIcon { icon: '\u{e627}', color: "#519aba" })
    } else if key == "go.sum"@ {
        Option::Some(FileIcon { icon: '\u{e627}', color: "#519aba" })
    } else if key == "go.work"@ {
        Option::Some(FileIcon { icon: '\u{e627}', color: "#519aba" })
    } else if key == "godot"@ {
        Option::Some(FileIcon { icon: '\u{e65f}', color: "#6d8086" })
    } else if key == "gql"@ {
        Option::Some(FileIcon { icon: '\u{f20e}', color: "#e535ab" })
    } else if key == "gradle"@ {
        Option::Some(FileIcon { icon: '\u{e660}', color: "#005f87" })
    } else if key == "gradle-wrapper.properties"@ {
        Option::Some(FileIcon { icon: '\u{e660}', color: "#005f87" })
    } else if key == "gradle.properties"@ {
        Option::Some(FileIcon { icon: '\u{e660}', color: "#005f87" })
    } else if key == "gradlew"@ {
        Option::Some(FileIcon { icon: '\u{e660}', color: "#005f87" })
    } else if key == "graphql"@ {
        Option::Some(FileIcon { icon: '\u{f20e}', color: "#e535ab" })
    } else if key == "gresource"@ {
        Option::Some(FileIcon { icon: '\u{f362}', color: "#ffffff" })
    } else if key == "groovy"@ {
        Option::Some(FileIcon { icon: '\u{e775}', color: "#4a687c" })
    } else if key == "gruntfile.babel.js"@ {
        Option::Some(FileIcon { icon: '\u{e611}', color: "#e37933" })
    } else if key == "gruntfile.coffee"@ {
        Option::Some(FileIcon { icon: '\u{e611}', color: "#e37933" })
    } else if key == "gruntfile.js"@ {
        Option::Some(FileIcon { icon: '\u{e611}', color: "#e37933" })
    } else if key == "gruntfile.ts"@ {
        Option::Some(FileIcon { icon: '\u{e611}', color: "#e37933" })
    } else if key == "gtkrc"@ {
        Option::Some(FileIcon { icon: '\u{f362}', color: "#ffffff" })
    } else if key == "gulpfile.babel.js"@ {
        Option::Some(FileIcon { icon: '\u{e610}', color: "#cc3e44" })
    } else if key == "gulpfile.coffee"@ {
        Option::Some(FileIcon { icon: '\u{e610}', color: "#cc3e44" })
    } else if key == "gulpfile.js"@ {
        Option::Some(FileIcon { icon: '\u{e610}', color: "#cc3e44" })
    } else if key == "gulpfile.ts"@ {
        Option::Some(FileIcon { icon: '\u{e610}', color: "#cc3e44" })
    } else if key == "gv"@ {
        Option::Some(FileIcon { icon: '\u{f1049}', color: "#30638e" })
    } else if key == "gz"@ {
        Option::Some(FileIcon { icon: '\u{f410}', color: "#eca517" })
    } else {
        Option::None
    }
}

/// The catalog's keys from h through l.
pub open spec fn spec_catalog_h_to_l(key: Seq<char>) -> Option<FileIcon> {
    if key == "h"@ {
        Option::Some(FileIcon { icon: '\u{f0fd}', color: "#a074c4" })
    } else if key == "haml"@ {
        Option::Some(FileIcon { icon: '\u{e60e}', color: "#eaeae1" })
    } else if key == "hbs"@ {
        Option::Some(FileIcon { icon: '\u{e60f}', color: "#f0772b" })
    } else if key == "heex"@ {
        Option::Some(FileIcon { icon: '\u{e62d}', color: "#a074c4" })
    } else if key == "hex"@ {
        Option::Some(FileIcon { icon: '\u{e667}', color: "#2e63ff" })
    } else if key == "hh"@ {
        Option::Some(FileIcon { icon: '\u{f0fd}', color: "#a074c4" })
    } else if key == "hpp"@ {
        Option::Some(FileIcon { icon: '\u{f0fd}', color: "#a074c4" })
    } else if key == "hrl"@ {
        Option::Some(FileIcon { icon: '\u{e7b1}', color: "#B83998" })
    } else if key == "hs"@ {
        Option::Some(FileIcon { icon: '\u{e61f}', color: "#a074c4" })
    } else if key == "htm"@ {
        Option::Some(FileIcon { icon: '\u{e60e}', color: "#e34c26" })
    } else if key == "html"@ {
        Option::Some(FileIcon { icon: '\u{e736}', color: "#e44d26" })
    } else if key == "huff"@ {
        Option::Some(FileIcon { icon: '\u{f0858}', color: "#4242c7" })
    } else if key == "hurl"@ {
        Option::Some(FileIcon { icon: '\u{f0ec}', color: "#ff0288" })
    } else if key == "hx"@ {
        Option::Some(FileIcon { icon: '\u{e666}', color: "#ea8220" })
    } else if key == "hxx"@ {
        Option::Some(FileIcon { icon: '\u{f0fd}', color: "#a074c4" })
    } else if key == "hypridle.conf"@ {
        Option::Some(FileIcon { icon: '\u{f359}', color: "#00aaae" })
    } else if key == "hyprland.conf"@ {
        Option::Some(FileIcon { icon: '\u{f359}', color: "#00aaae" })
    } else if key == "hyprlock.conf"@ {
        Option::Some(FileIcon { icon: '\u{f359}', color: "#00aaae" })
    } else if key == "i18n.config.js"@ {
        Option::Some(FileIcon { icon: '\u{f05ca}', color: "#7986cb" })
    } else if key == "i18n.config.ts"@ {
        Option::Some(FileIcon { icon: '\u{f05ca}', color: "#7986cb" })
    } else if key == "i3blocks.conf"@ {
        Option::Some(FileIcon { icon: '\u{f35a}', color: "#e8ebee" })
    } else if key == "i3status.conf"@ {
        Option::Some(FileIcon { icon: '\u{f35a}', color: "#e8ebee" })
    } else if key == "ical"@ {
        Option::Some(FileIcon { icon: '\u{f073}', color: "#2B2e83" })
    } else if key == "icalendar"@ {
        Option::Some(FileIcon { icon: '\u{f073}', color: "#2B2e83" })
    } else if key == "ico"@ {
        Option::Some(FileIcon { icon: '\u{e60d}', color: "#cbcb41" })
    } else if key == "ics"@ {
        Option::Some(FileIcon { icon: '\u{f073}', color: "#2B2e83" })
    } else if key == "ifb"@ {
        Option::Some(FileIcon { icon: '\u{f073}', color: "#2B2e83" })
    } else if key == "ifc"@ {
        Option::Some(FileIcon { icon: '\u{f0eeb}', color: "#839463" })
    } else if key == "ige"@ {
        Option::Some(FileIcon { icon: '\u{f0eeb}', color: "#839463" })
    } else if key == "iges"@ {
        Option::Some(FileIcon { icon: '\u{f0eeb}', color: "#839463" })
    } else if key == "igs"@ {
        Option::Some(FileIcon { icon: '\u{f0eeb}', color: "#839463" })
    } else if key == "image"@ {
        Option::Some(FileIcon { icon: '\u{e271}', color: "#d0bec8" })
    } else if key == "img"@ {
        Option::Some(FileIcon { icon: '\u{e271}', color: "#d0bec8" })
    } else if key == "import"@ {
        Option::Some(FileIcon { icon: '\u{f0c6}', color: "#ECECEC" })
    } else if key == "info"@ {
        Option::Some(FileIcon { icon: '\u{f129}', color: "#ffffcd" })
    } else if key == "ini"@ {
        Option::Some(FileIcon { icon: '\u{e615}', color: "#6d8086" })
    } else if key == "ino"@ {
        Option::Some(FileIcon { icon: '\u{f34b}', color: "#56b6c2" })
    } else if key == "ionic.config.json"@ {
        Option::Some(FileIcon { icon: '\u{e7a9}', color: "#4f8ff7" })
    } else if key == "ipynb"@ {
        Option::Some(FileIcon { icon: '\u{e606}', color: "#51a0cf" })
    } else if key == "iso"@ {
        Option::Some(FileIcon { icon: '\u{e271}', color: "#d0bec8" })
    } else if key == "ixx"@ {
        Option::Some(FileIcon { icon: '\u{e61d}', color: "#519aba" })
    } else if key == "java"@ {
        Option::Some(FileIcon { icon: '\u{e738}', color: "#cc3e44" })
    } else if key == "jl"@ {
        Option::Some(FileIcon { icon: '\u{e624}', color: "#a270ba" })
    } else if key == "jpeg"@ {
        Option::Some(FileIcon { icon: '\u{e60d}', color: "#a074c4" })
    } else if key == "jpg"@ {
        Option::Some(FileIcon { icon: '\u{e60d}', color: "#a074c4" })
    } else if key == "js"@ {
        Option::Some(FileIcon { icon: '\u{e60c}', color: "#cbcb41" })
    } else if key == "json"@ {
        Option::Some(FileIcon { icon: '\u{e60b}', color: "#cbcb41" })
    } else if key == "json5"@ {
        Option::Some(FileIcon { icon: '\u{e60b}', color: "#cbcb41" })
    } else if key == "jsonc"@ {
        Option::Some(FileIcon { icon: '\u{e60b}', color: "#cbcb41" })
    } else if key == "jsx"@ {
        Option::Some(FileIcon { icon: '\u{e625}', color: "#20c2e3" })
    } else if key == "justfile"@ {
        Option::Some(FileIcon { icon: '\u{f0ad}', color: "#6d8086" })
    } else if key == "jwmrc"@ {
        Option::Some(FileIcon { icon: '\u{f35b}', color: "#0078cd" })
    } else if key == "jxl"@ {
        Option::Some(FileIcon { icon: '\u{e60d}', color: "#a074c4" })
    } else if key == "kalgebrarc"@ {
        Option::Some(FileIcon { icon: '\u{f373}', color: "#1c99f3" })
    } else if key == "kbx"@ {
        Option::Some(FileIcon { icon: '\u{f0bc4}', color: "#737672" })
    } else if key == "kdb"@ {
        Option::Some(FileIcon { icon: '\u{f23e}', color: "#529b34" })
    } else if key == "kdbx"@ {
        Option::Some(FileIcon { icon: '\u{f23e}', color: "#529b34" })
    } else if key == "kdeglobals"@ {
        Option::Some(FileIcon { icon: '\u{f373}', color: "#1c99f3" })
    } else if key == "kdenlive"@ {
        Option::Some(FileIcon { icon: '\u{f33c}', color: "#83b8f2" })
    } else if key == "kdenlive-layoutsrc"@ {
        Option::Some(FileIcon { icon: '\u{f33c}', color: "#83b8f2" })
    } else if key == "kdenliverc"@ {
        Option::Some(FileIcon { icon: '\u{f33c}', color: "#83b8f2" })
    } else if key == "kdenlivetitle"@ {
        Option::Some(FileIcon { icon: '\u{f33c}', color: "#83b8f2" })
    } else if key == "kicad_dru"@ {
        Option::Some(FileIcon { icon: '\u{f34c}', color: "#ffffff" })
    } else if key == "kicad_mod"@ {
        Option::Some(FileIcon { icon: '\u{f34c}', color: "#ffffff" })
    } else if key == "kicad_pcb"@ {
        Option::Some(FileIcon { icon: '\u{f34c}', color: "#ffffff" })
    } else if key == "kicad_prl"@ {
        Option::Some(FileIcon { icon: '\u{f34c}', color: "#ffffff" })
    } else if key == "kicad_pro"@ {
        Option::Some(FileIcon { icon: '\u{f34c}', color: "#ffffff" })
    } else if key == "kicad_sch"@ {
        Option::Some(FileIcon { icon: '\u{f34c}', color: "#ffffff" })
    } else if key == "kicad_sym"@ {
        Option::Some(FileIcon { icon: '\u{f34c}', color: "#ffffff" })
    } else if key == "kicad_wks"@ {
        Option::Some(FileIcon { icon: '\u{f34c}', color: "#ffffff" })
    } else if key == "ko"@ {
        Option::Some(FileIcon { icon: '\u{f17c}', color: "#dcddd6" })
    } else if key == "kpp"@ {
        Option::Some(FileIcon { icon: '\u{f33d}', color: "#f245fb" })
    } else if key == "kra"@ {
        Option::Some(FileIcon { icon: '\u{f33d}', color: "#f245fb" })
    } else if key == "kritadisplayrc"@ {
        Option::Some(FileIcon { icon: '\u{f33d}', color: "#f245fb" })
    } else if key == "kritarc"@ {
        Option::Some(FileIcon { icon: '\u{f33d}', color: "#f245fb" })
    } else if key == "krz"@ {
        Option::Some(FileIcon { icon: '\u{f33d}', color: "#f245fb" })
    } else if key == "ksh"@ {
        Option::Some(FileIcon { icon: '\u{e795}', color: "#4d5a5e" })
    } else if key == "kt"@ {
        Option::Some(FileIcon { icon: '\u{e634}', color: "#7F52FF" })
    } else if key == "kts"@ {
        Option::Some(FileIcon { icon: '\u{e634}', color: "#7F52FF" })
    } else if key == "lck"@ {
        Option::Some(FileIcon { icon: '\u{e672}', color: "#bbbbbb" })
    } else if key == "leex"@ {
        Option::Some(FileIcon { icon: '\u{e62d}', color: "#a074c4" })
    } else if key == "less"@ {
        Option::Some(FileIcon { icon: '\u{e614}', color: "#563d7c" })
    } else if key == "lff"@ {
        Option::Some(FileIcon { icon: '\u{f031}', color: "#ECECEC" })
    } else if key == "lhs"@ {
        Option::Some(FileIcon { icon: '\u{e61f}', color: "#a074c4" })
    } else if key == "lib"@ {
        Option::Some(FileIcon { icon: '\u{eb9c}', color: "#4d2c0b" })
    } else if key == "license"@ {
        Option::Some(FileIcon { icon: '\u{e60a}', color: "#cbcb41" })
    } else if key == "license.md"@ {
        Option::Some(FileIcon { icon: '\u{e60a}', color: "#d0bf41" })
    } else if key == "liquid"@ {
        Option::Some(FileIcon { icon: '\u{e670}', color: "#95BF47" })
    } else if key == "lock"@ {
        Option::Some(FileIcon { icon: '\u{e672}', color: "#bbbbbb" })
    } else if key == "log"@ {
        Option::Some(FileIcon { icon: '\u{f0331}', color: "#dddddd" })
    } else if key == "lrc"@ {
        Option::Some(FileIcon { icon: '\u{f0a16}', color: "#ffb713" })
    } else if key == "lua"@ {
        Option::Some(FileIcon { icon: '\u{e620}', color: "#51a0cf" })
    } else if key == "luac"@ {
        Option::Some(FileIcon { icon: '\u{e620}', color: "#51a0cf" })
    } else if key == "luau"@ {
        Option::Some(FileIcon { icon: '\u{e620}', color: "#00a2ff" })
    } else if key == "lxde-rc.xml"@ {
        Option::Some(FileIcon { icon: '\u{f363}', color: "#909090" })
    } else if key == "lxqt.conf"@ {
        Option::Some(FileIcon { icon: '\u{f364}', color: "#0192d3" })
    } else {
        Option::None
    }
}

/// The catalog's keys from m through p.
pub open spec fn spec_catalog_m_to_p(key: Seq<char>) -> Option<FileIcon> {
    if key == "m"@ {
        Option::Some(FileIcon { icon: '\u{e61e}', color: "#599eff" })
    } else if key == "m3u"@ {
        Option::Some(FileIcon { icon: '\u{f0cb9}', color: "#ed95ae" })
    } else if key == "m3u8"@ {
        Option::Some(FileIcon { icon: '\u{f0cb9}', color: "#ed95ae" })
    } else if key == "m4a"@ {
        Option::Some(FileIcon { icon: '\u{f001}', color: "#00afff" })
    } else if key == "m4v"@ {
        Option::Some(FileIcon { icon: '\u{e69f}', color: "#FD971F" })
    } else if key == "magnet"@ {
        Option::Some(FileIcon { icon: '\u{f076}', color: "#a51b16" })
    } else if key == "makefile"@ {
        Option::Some(FileIcon { icon: '\u{e779}', color: "#6d8086" })
    } else if key == "markdown"@ {
        Option::Some(FileIcon { icon: '\u{e609}', color: "#dddddd" })
    } else if key == "material"@ {
        Option::Some(FileIcon { icon: '\u{f0509}', color: "#B83998" })
    } else if key == "md"@ {
        Option::Some(FileIcon { icon: '\u{f48a}', color: "#dddddd" })
    } else if key == "md5"@ {
        Option::Some(FileIcon { icon: '\u{f0565}', color: "#8c86af" })
    } else if key == "mdx"@ {
        Option::Some(FileIcon { icon: '\u{f48a}', color: "#519aba" })
    } else if key == "mint"@ {
        Option::Some(FileIcon { icon: '\u{f032a}', color: "#87c095" })
    } else if key == "mix.lock"@ {
        Option::Some(FileIcon { icon: '\u{e62d}', color: "#a074c4" })
    } else if key == "mjs"@ {
        Option::Some(FileIcon { icon: '\u{e60c}', color: "#f1e05a" })
    } else if key == "mk"@ {
        Option::Some(FileIcon { icon: '\u{e779}', color: "#6d8086" })
    } else if key == "mkv"@ {
        Option::Some(FileIcon { icon: '\u{e69f}', color: "#FD971F" })
    } else if key == "ml"@ {
        Option::Some(FileIcon { icon: '\u{e67a}', color: "#e37933" })
    } else if key == "mli"@ {
        Option::Some(FileIcon { icon: '\u{e67a}', color: "#e37933" })
    } else if key == "mm"@ {
        Option::Some(FileIcon { icon: '\u{e61d}', color: "#519aba" })
    } else if key == "mo"@ {
        Option::Some(FileIcon { icon: '\u{221e}', color: "#9772FB" })
    } else if key == "mobi"@ {
        Option::Some(FileIcon { icon: '\u{e28b}', color: "#eab16d" })
    } else if key == "mojo"@ {
        Option::Some(FileIcon { icon: '\u{f06d}', color: "#ff4c1f" })
    } else if key == "mov"@ {
        Option::Some(FileIcon { icon: '\u{e69f}', color: "#FD971F" })
    } else if key == "mp3"@ {
        Option::Some(FileIcon { icon: '\u{f001}', color: "#00afff" })
    } else if key == "mp4"@ {
        Option::Some(FileIcon { icon: '\u{e69f}', color: "#FD971F" })
    } else if key == "mpp"@ {
        Option::Some(FileIcon { icon: '\u{e61d}', color: "#519aba" })
    } else if key == "mpv.conf"@ {
        Option::Some(FileIcon { icon: '\u{f36e}', color: "#3b1342" })
    } else if key == "msf"@ {
        Option::Some(FileIcon { icon: '\u{f370}', color: "#137be1" })
    } else if key == "mts"@ {
        Option::Some(FileIcon { icon: '\u{e628}', color: "#519aba" })
    } else if key == "mustache"@ {
        Option::Some(FileIcon { icon: '\u{e60f}', color: "#e37933" })
    } else if key == "nfo"@ {
        Option::Some(FileIcon { icon: '\u{f129}', color: "#ffffcd" })
    } else if key == "nim"@ {
        Option::Some(FileIcon { icon: '\u{e677}', color: "#f3d400" })
    } else if key == "nix"@ {
        Option::Some(FileIcon { icon: '\u{f313}', color: "#7ebae4" })
    } else if key == "node_modules"@ {
        Option::Some(FileIcon { icon: '\u{e718}', color: "#E8274B" })
    } else if key == "nswag"@ {
        Option::Some(FileIcon { icon: '\u{e60b}', color: "#85ea2d" })
    } else if key == "nu"@ {
        Option::Some(FileIcon { icon: '\u{3e}', color: "#3aa675" })
    } else if key == "nuxt.config.cjs"@ {
        Option::Some(FileIcon { icon: '\u{f1106}', color: "#00c58e" })
    } else if key == "nuxt.config.js"@ {
        Option::Some(FileIcon { icon: '\u{f1106}', color: "#00c58e" })
    } else if key == "nuxt.config.mjs"@ {
        Option::Some(FileIcon { icon: '\u{f1106}', color: "#00c58e" })
    } else if key == "nuxt.config.ts"@ {
        Option::Some(FileIcon { icon: '\u{f1106}', color: "#00c58e" })
    } else if key == "o"@ {
        Option::Some(FileIcon { icon: '\u{eae8}', color: "#9F0500" })
    } else if key == "obj"@ {
        Option::Some(FileIcon { icon: '\u{f01a7}', color: "#888888" })
    } else if key == "ogg"@ {
        Option::Some(FileIcon { icon: '\u{f001}', color: "#0075aa" })
    } else if key == "opus"@ {
        Option::Some(FileIcon { icon: '\u{f001}', color: "#0075aa" })
    } else if key == "org"@ {
        Option::Some(FileIcon { icon: '\u{e633}', color: "#77AA99" })
    } else if key == "otf"@ {
        Option::Some(FileIcon { icon: '\u{f031}', color: "#ECECEC" })
    } else if key == "out"@ {
        Option::Some(FileIcon { icon: '\u{eae8}', color: "#9F0500" })
    } else if key == "package-lock.json"@ {
        Option::Some(FileIcon { icon: '\u{e71e}', color: "#7a0d21" })
    } else if key == "package.json"@ {
        Option::Some(FileIcon { icon: '\u{e71e}', color: "#e8274b" })
    } else if key == "part"@ {
        Option::Some(FileIcon { icon: '\u{f019}', color: "#44cda8" })
    } else if key == "patch"@ {
        Option::Some(FileIcon { icon: '\u{e728}', color: "#41535b" })
    } else if key == "pck"@ {
        Option::Some(FileIcon { icon: '\u{f487}', color: "#6d8086" })
    } else if key == "pcm"@ {
        Option::Some(FileIcon { icon: '\u{f001}', color: "#0075aa" })
    } else if key == "pdf"@ {
        Option::Some(FileIcon { icon: '\u{eaeb}', color: "#b30b00" })
    } else if key == "php"@ {
        Option::Some(FileIcon { icon: '\u{e608}', color: "#a074c4" })
    } else if key == "pl"@ {
        Option::Some(FileIcon { icon: '\u{e769}', color: "#519aba" })
    } else if key == "platformio.ini"@ {
        Option::Some(FileIcon { icon: '\u{e682}', color: "#f6822b" })
    } else if key == "pls"@ {
        Option::Some(FileIcon { icon: '\u{f0cb9}', color: "#ed95ae" })
    } else if key == "ply"@ {
        Option::Some(FileIcon { icon: '\u{f01a7}', color: "#888888" })
    } else if key == "pm"@ {
        Option::Some(FileIcon { icon: '\u{e769}', color: "#519aba" })
    } else if key == "png"@ {
        Option::Some(FileIcon { icon: '\u{e60d}', color: "#a074c4" })
    } else if key == "po"@ {
        Option::Some(FileIcon { icon: '\u{f1ab}', color: "#2596be" })
    } else if key == "pom.xml"@ {
        Option::Some(FileIcon { icon: '\u{e674}', color: "#7a0d21" })
    } else if key == "pot"@ {
        Option::Some(FileIcon { icon: '\u{f1ab}', color: "#2596be" })
    } else if key == "pp"@ {
        Option::Some(FileIcon { icon: '\u{e631}', color: "#FFA61A" })
    } else if key == "ppt"@ {
        Option::Some(FileIcon { icon: '\u{f0227}', color: "#cb4a32" })
    } else if key == "prettier.config.cjs"@ {
        Option::Some(FileIcon { icon: '\u{e6b4}', color: "#4285F4" })
    } else if key == "prettier.config.js"@ {
        Option::Some(FileIcon { icon: '\u{e6b4}', color: "#4285F4" })
    } else if key == "prettier.config.mjs"@ {
        Option::Some(FileIcon { icon: '\u{e6b4}', color: "#4285F4" })
    } else if key == "prettier.config.ts"@ {
        Option::Some(FileIcon { icon: '\u{e6b4}', color: "#4285F4" })
    } else if key == "prisma"@ {
        Option::Some(FileIcon { icon: '\u{e684}', color: "#5a67d8" })
    } else if key == "pro"@ {
        Option::Some(FileIcon { icon: '\u{e7a1}', color: "#e4b854" })
    } else if key == "procfile"@ {
        Option::Some(FileIcon { icon: '\u{e607}', color: "#a074c4" })
    } else if key == "ps1"@ {
        Option::Some(FileIcon { icon: '\u{f0a0a}', color: "#4273ca" })
    } else if key == "psb"@ {
        Option::Some(FileIcon { icon: '\u{e7b8}', color: "#519aba" })
    } else if key == "psd"@ {
        Option::Some(FileIcon { icon: '\u{e7b8}', color: "#519aba" })
    } else if key == "psd1"@ {
        Option::Some(FileIcon { icon: '\u{f0a0a}', color: "#6975c4" })
    } else if key == "psm1"@ {
        Option::Some(FileIcon { icon: '\u{f0a0a}', color: "#6975c4" })
    } else if key == "pub"@ {
        Option::Some(FileIcon { icon: '\u{f0dd6}', color: "#e3c58e" })
    } else if key == "pxd"@ {
        Option::Some(FileIcon { icon: '\u{e606}', color: "#5aa7e4" })
    } else if key == "pxi"@ {
        Option::Some(FileIcon { icon: '\u{e606}', color: "#5aa7e4" })
    } else if key == "py"@ {
        Option::Some(FileIcon { icon: '\u{e606}', color: "#ffbc03" })
    } else if key == "py.typed"@ {
        Option::Some(FileIcon { icon: '\u{e606}', color: "#ffbc03" })
    } else if key == "pyc"@ {
        Option::Some(FileIcon { icon: '\u{e606}', color: "#ffe291" })
    } else if key == "pyd"@ {
        Option::Some(FileIcon { icon: '\u{e606}', color: "#ffe291" })
    } else if key == "pyi"@ {
        Option::Some(FileIcon { icon: '\u{e606}', color: "#ffbc03" })
    } else if key == "pyo"@ {
        Option::Some(FileIcon { icon: '\u{e606}', color: "#ffe291" })
    } else if key == "pyw"@ {
        Option::Some(FileIcon { icon: '\u{e606}', color: "#5aa7e4" })
    } else if key == "pyx"@ {
        Option::Some(FileIcon { icon: '\u{e606}', color: "#5aa7e4" })
    } else {
        Option::None
    }
}

/// The catalog's keys from q through s.
pub open spec fn spec_catalog_q_to_s(key: Seq<char>) -> Option<FileIcon> {
    if key == "qm"@ {
        Option::Some(FileIcon { icon: '\u{f1ab}', color: "#2596be" })
    } else if key == "qml"@ {
        Option::Some(FileIcon { icon: '\u{f375}', color: "#40cd52" })
    } else if key == "qrc"@ {
        Option::Some(FileIcon { icon: '\u{f375}', color: "#40cd52" })
    } else if key == "qss"@ {
        Option::Some(FileIcon { icon: '\u{f375}', color: "#40cd52" })
    } else if key == "query"@ {
        Option::Some(FileIcon { icon: '\u{e21c}', color: "#90a850" })
    } else if key == "r"@ {
        Option::Some(FileIcon { icon: '\u{f07d4}', color: "#2266ba" })
    } else if key == "rake"@ {
        Option::Some(FileIcon { icon: '\u{e791}', color: "#701516" })
    } else if key == "rakefile"@ {
        Option::Some(FileIcon { icon: '\u{e791}', color: "#701516" })
    } else if key == "rar"@ {
        Option::Some(FileIcon { icon: '\u{f410}', color: "#eca517" })
    } else if key == "razor"@ {
        Option::Some(FileIcon { icon: '\u{f1998}', color: "#512bd4" })
    } else if key == "rb"@ {
        Option::Some(FileIcon { icon: '\u{e791}', color: "#701516" })
    } else if key == "res"@ {
        Option::Some(FileIcon { icon: '\u{e688}', color: "#cc3e44" })
    } else if key == "resi"@ {
        Option::Some(FileIcon { icon: '\u{e688}', color: "#f55385" })
    } else if key == "rlib"@ {
        Option::Some(FileIcon { icon: '\u{e7a8}', color: "#dea584" })
    } else if key == "rmd"@ {
        Option::Some(FileIcon { icon: '\u{e609}', color: "#519aba" })
    } else if key == "robots.txt"@ {
        Option::Some(FileIcon { icon: '\u{f06a9}', color: "#5d7096" })
    } else if key == "rproj"@ {
        Option::Some(FileIcon { icon: '\u{f05c6}', color: "#358a5b" })
    } else if key == "rs"@ {
        Option::Some(FileIcon { icon: '\u{e68b}', color: "#dea584" })
    } else if key == "rss"@ {
        Option::Some(FileIcon { icon: '\u{e619}', color: "#FB9D3B" })
    } else if key == "sass"@ {
        Option::Some(FileIcon { icon: '\u{e603}', color: "#f55385" })
    } else if key == "sbt"@ {
        Option::Some(FileIcon { icon: '\u{e737}', color: "#cc3e44" })
    } else if key == "sc"@ {
        Option::Some(FileIcon { icon: '\u{e737}', color: "#cc3e44" })
    } else if key == "scad"@ {
        Option::Some(FileIcon { icon: '\u{f34e}', color: "#f9d72c" })
    } else if key == "scala"@ {
        Option::Some(FileIcon { icon: '\u{e737}', color: "#cc3e44" })
    } else if key == "scm"@ {
        Option::Some(FileIcon { icon: '\u{f0627}', color: "#eeeeee" })
    } else if key == "scss"@ {
        Option::Some(FileIcon { icon: '\u{e603}', color: "#f55385" })
    } else if key == "security"@ {
        Option::Some(FileIcon { icon: '\u{f0483}', color: "#BEC4C9" })
    } else if key == "security.md"@ {
        Option::Some(FileIcon { icon: '\u{f0483}', color: "#BEC4C9" })
    } else if key == "settings.gradle"@ {
        Option::Some(FileIcon { icon: '\u{e660}', color: "#005f87" })
    } else if key == "sh"@ {
        Option::Some(FileIcon { icon: '\u{e795}', color: "#4d5a5e" })
    } else if key == "sha1"@ {
        Option::Some(FileIcon { icon: '\u{f0565}', color: "#8c86af" })
    } else if key == "sha224"@ {
        Option::Some(FileIcon { icon: '\u{f0565}', color: "#8c86af" })
    } else if key == "sha256"@ {
        Option::Some(FileIcon { icon: '\u{f0565}', color: "#8c86af" })
    } else if key == "sha384"@ {
        Option::Some(FileIcon { icon: '\u{f0565}', color: "#8c86af" })
    } else if key == "sha512"@ {
        Option::Some(FileIcon { icon: '\u{f0565}', color: "#8c86af" })
    } else if key == "sig"@ {
        Option::Some(FileIcon { icon: '\u{3bb}', color: "#e37933" })
    } else if key == "signature"@ {
        Option::Some(FileIcon { icon: '\u{3bb}', color: "#e37933" })
    } else if key == "skp"@ {
        Option::Some(FileIcon { icon: '\u{f0eeb}', color: "#839463" })
    } else if key == "sldasm"@ {
        Option::Some(FileIcon { icon: '\u{f0eeb}', color: "#839463" })
    } else if key == "sldprt"@ {
        Option::Some(FileIcon { icon: '\u{f0eeb}', color: "#839463" })
    } else if key == "slim"@ {
        Option::Some(FileIcon { icon: '\u{e60e}', color: "#e34c26" })
    } else if key == "sln"@ {
        Option::Some(FileIcon { icon: '\u{e70c}', color: "#854CC7" })
    } else if key == "slvs"@ {
        Option::Some(FileIcon { icon: '\u{f0eeb}', color: "#839463" })
    } else if key == "sml"@ {
        Option::Some(FileIcon { icon: '\u{3bb}', color: "#e37933" })
    } else if key == "so"@ {
        Option::Some(FileIcon { icon: '\u{eb9c}', color: "#dcddd6" })
    } else if key == "sol"@ {
        Option::Some(FileIcon { icon: '\u{e656}', color: "#519aba" })
    } else if key == "spec.js"@ {
        Option::Some(FileIcon { icon: '\u{f499}', color: "#cbcb41" })
    } else if key == "spec.jsx"@ {
        Option::Some(FileIcon { icon: '\u{f499}', color: "#20c2e3" })
    } else if key == "spec.ts"@ {
        Option::Some(FileIcon { icon: '\u{f499}', color: "#519aba" })
    } else if key == "spec.tsx"@ {
        Option::Some(FileIcon { icon: '\u{f499}', color: "#1354bf" })
    } else if key == "sql"@ {
        Option::Some(FileIcon { icon: '\u{e706}', color: "#dad8d8" })
    } else if key == "sqlite"@ {
        Option::Some(FileIcon { icon: '\u{e706}', color: "#dad8d8" })
    } else if key == "sqlite3"@ {
        Option::Some(FileIcon { icon: '\u{e706}', color: "#dad8d8" })
    } else if key == "srt"@ {
        Option::Some(FileIcon { icon: '\u{f0a16}', color: "#ffb713" })
    } else if key == "ssa"@ {
        Option::Some(FileIcon { icon: '\u{f0a16}', color: "#ffb713" })
    } else if key == "ste"@ {
        Option::Some(FileIcon { icon: '\u{f0eeb}', color: "#839463" })
    } else if key == "step"@ {
        Option::Some(FileIcon { icon: '\u{f0eeb}', color: "#839463" })
    } else if key == "stl"@ {
        Option::Some(FileIcon { icon: '\u{f01a7}', color: "#888888" })
    } else if key == "stp"@ {
        Option::Some(FileIcon { icon: '\u{f0eeb}', color: "#839463" })
    } else if key == "strings"@ {
        Option::Some(FileIcon { icon: '\u{f1ab}', color: "#2596be" })
    } else if key == "styl"@ {
        Option::Some(FileIcon { icon: '\u{e600}', color: "#8dc149" })
    } else if key == "sub"@ {
        Option::Some(FileIcon { icon: '\u{f0a16}', color: "#ffb713" })
    } else if key == "sublime"@ {
        Option::Some(FileIcon { icon: '\u{e7aa}', color: "#e37933" })
    } else if key == "suo"@ {
        Option::Some(FileIcon { icon: '\u{e70c}', color: "#854CC7" })
    } else if key == "sv"@ {
        Option::Some(FileIcon { icon: '\u{f035b}', color: "#019833" })
    } else if key == "svelte"@ {
        Option::Some(FileIcon { icon: '\u{e697}', color: "#ff3e00" })
    } else if key == "svelte.config.js"@ {
        Option::Some(FileIcon { icon: '\u{e697}', color: "#ff3e00" })
    } else if key == "svg"@ {
        Option::Some(FileIcon { icon: '\u{f0721}', color: "#FFB13B" })
    } else if key == "svh"@ {
        Option::Some(FileIcon { icon: '\u{f035b}', color: "#019833" })
    } else if key == "swift"@ {
        Option::Some(FileIcon { icon: '\u{e755}', color: "#e37933" })
    } else if key == "sxhkdrc"@ {
        Option::Some(FileIcon { icon: '\u{f355}', color: "#2f2f2f" })
    } else if key == "sym-lib-table"@ {
        Option::Some(FileIcon { icon: '\u{f34c}', color: "#ffffff" })
    } else {
        Option::None
    }
}

/// The catalog's keys from t through z.
pub open spec fn spec_catalog_t_to_z(key: Seq<char>) -> Option<FileIcon> {
    if key == "t"@ {
        Option::Some(FileIcon { icon: '\u{e769}', color: "#519aba" })
    } else if key == "tailwind.config.js"@ {
        Option::Some(FileIcon { icon: '\u{f13ff}', color: "#20c2e3" })
    } else if key == "tailwind.config.mjs"@ {
        Option::Some(FileIcon { icon: '\u{f13ff}', color: "#20c2e3" })
    } else if key == "tailwind.config.ts"@ {
        Option::Some(FileIcon { icon: '\u{f13ff}', color: "#20c2e3" })
    } else if key == "tbc"@ {
        Option::Some(FileIcon { icon: '\u{f06d3}', color: "#1e5cb3" })
    } else if key == "tcl"@ {
        Option::Some(FileIcon { icon: '\u{f06d3}', color: "#1e5cb3" })
    } else if key == "templ"@ {
        Option::Some(FileIcon { icon: '\u{eac4}', color: "#dbbd30" })
    } else if key == "terminal"@ {
        Option::Some(FileIcon { icon: '\u{f489}', color: "#31B53E" })
    } else if key == "test.js"@ {
        Option::Some(FileIcon { icon: '\u{f499}', color: "#cbcb41" })
    } else if key == "test.jsx"@ {
        Option::Some(FileIcon { icon: '\u{f499}', color: "#20c2e3" })
    } else if key == "test.ts"@ {
        Option::Some(FileIcon { icon: '\u{f499}', color: "#519aba" })
    } else if key == "test.tsx"@ {
        Option::Some(FileIcon { icon: '\u{f499}', color: "#1354bf" })
    } else if key == "tex"@ {
        Option::Some(FileIcon { icon: '\u{e69b}', color: "#3D6117" })
    } else if key == "tf"@ {
        Option::Some(FileIcon { icon: '\u{e69a}', color: "#5F43E9" })
    } else if key == "tfvars"@ {
        Option::Some(FileIcon { icon: '\u{f15b}', color: "#5F43E9" })
    } else if key == "tgz"@ {
        Option::Some(FileIcon { icon: '\u{f410}', color: "#eca517" })
    } else if key == "tmux"@ {
        Option::Some(FileIcon { icon: '\u{ebc8}', color: "#14ba19" })
    } else if key == "tmux.conf"@ {
        Option::Some(FileIcon { icon: '\u{ebc8}', color: "#14ba19" })
    } else if key == "tmux.conf.local"@ {
        Option::Some(FileIcon { icon: '\u{ebc8}', color: "#14ba19" })
    } else if key == "toml"@ {
        Option::Some(FileIcon { icon: '\u{e6b2}', color: "#9c4221" })
    } else if key == "torrent"@ {
        Option::Some(FileIcon { icon: '\u{f019}', color: "#44cda8" })
    } else if key == "tres"@ {
        Option::Some(FileIcon { icon: '\u{e65f}', color: "#6d8086" })
    } else if key == "ts"@ {
        Option::Some(FileIcon { icon: '\u{e628}', color: "#519aba" })
    } else if key == "tscn"@ {
        Option::Some(FileIcon { icon: '\u{e65f}', color: "#6d8086" })
    } else if key == "tsconfig"@ {
        Option::Some(FileIcon { icon: '\u{e772}', color: "#FF8700" })
    } else if key == "tsconfig.json"@ {
        Option::Some(FileIcon { icon: '\u{e69d}', color: "#519aba" })
    } else if key == "tsx"@ {
        Option::Some(FileIcon { icon: '\u{e7ba}', color: "#1354bf" })
    } else if key == "ttf"@ {
        Option::Some(FileIcon { icon: '\u{f031}', color: "#ECECEC" })
    } else if key == "twig"@ {
        Option::Some(FileIcon { icon: '\u{e61c}', color: "#8dc149" })
    } else if key == "txt"@ {
        Option::Some(FileIcon { icon: '\u{f0219}', color: "#89e051" })
    } else if key == "txz"@ {
        Option::Some(FileIcon { icon: '\u{f410}', color: "#eca517" })
    } else if key == "typoscript"@ {
        Option::Some(FileIcon { icon: '\u{e772}', color: "#FF8700" })
    } else if key == "ui"@ {
        Option::Some(FileIcon { icon: '\u{f2d0}', color: "#015BF0" })
    } else if key == "unlicense"@ {
        Option::Some(FileIcon { icon: '\u{e60a}', color: "#d0bf41" })
    } else if key == "v"@ {
        Option::Some(FileIcon { icon: '\u{f035b}', color: "#019833" })
    } else if key == "vagrantfile$"@ {
        Option::Some(FileIcon { icon: '\u{f2b8}', color: "#1563FF" })
    } else if key == "vala"@ {
        Option::Some(FileIcon { icon: '\u{e69e}', color: "#7239b3" })
    } else if key == "vercel.json"@ {
        Option::Some(FileIcon { icon: '\u{25b2}', color: "#ffffff" })
    } else if key == "vh"@ {
        Option::Some(FileIcon { icon: '\u{f035b}', color: "#019833" })
    } else if key == "vhd"@ {
        Option::Some(FileIcon { icon: '\u{f035b}', color: "#019833" })
    } else if key == "vhdl"@ {
        Option::Some(FileIcon { icon: '\u{f035b}', color: "#019833" })
    } else if key == "vim"@ {
        Option::Some(FileIcon { icon: '\u{e62b}', color: "#019833" })
    } else if key == "vlcrc"@ {
        Option::Some(FileIcon { icon: '\u{f057c}', color: "#ee7a00" })
    } else if key == "vsh"@ {
        Option::Some(FileIcon { icon: '\u{e6ac}', color: "#5d87bf" })
    } else if key == "vsix"@ {
        Option::Some(FileIcon { icon: '\u{e70c}', color: "#854CC7" })
    } else if key == "vue"@ {
        Option::Some(FileIcon { icon: '\u{e6a0}', color: "#8dc149" })
    } else if key == "wasm"@ {
        Option::Some(FileIcon { icon: '\u{e6a1}', color: "#5c4cdb" })
    } else if key == "wav"@ {
        Option::Some(FileIcon { icon: '\u{f001}', color: "#00afff" })
    } else if key == "webm"@ {
        Option::Some(FileIcon { icon: '\u{e69f}', color: "#FD971F" })
    } else if key == "webmanifest"@ {
        Option::Some(FileIcon { icon: '\u{e60b}', color: "#f1e05a" })
    } else if key == "webp"@ {
        Option::Some(FileIcon { icon: '\u{e60d}', color: "#a074c4" })
    } else if key == "webpack"@ {
        Option::Some(FileIcon { icon: '\u{f072b}', color: "#519aba" })
    } else if key == "weston.ini"@ {
        Option::Some(FileIcon { icon: '\u{f367}', color: "#ffbb01" })
    } else if key == "wma"@ {
        Option::Some(FileIcon { icon: '\u{f001}', color: "#00afff" })
    } else if key == "woff"@ {
        Option::Some(FileIcon { icon: '\u{f031}', color: "#ECECEC" })
    } else if key == "woff2"@ {
        Option::Some(FileIcon { icon: '\u{f031}', color: "#ECECEC" })
    } else if key == "workspace"@ {
        Option::Some(FileIcon { icon: '\u{e63a}', color: "#89e051" })
    } else if key == "wrl"@ {
        Option::Some(FileIcon { icon: '\u{f01a7}', color: "#888888" })
    } else if key == "wrz"@ {
        Option::Some(FileIcon { icon: '\u{f01a7}', color: "#888888" })
    } else if key == "wv"@ {
        Option::Some(FileIcon { icon: '\u{f001}', color: "#00afff" })
    } else if key == "wvc"@ {
        Option::Some(FileIcon { icon: '\u{f001}', color: "#00afff" })
    } else if key == "x"@ {
        Option::Some(FileIcon { icon: '\u{e691}', color: "#599eff" })
    } else if key == "xaml"@ {
        Option::Some(FileIcon { icon: '\u{f0673}', color: "#512bd4" })
    } else if key == "xcf"@ {
        Option::Some(FileIcon { icon: '\u{f338}', color: "#635b46" })
    } else if key == "xcplayground"@ {
        Option::Some(FileIcon { icon: '\u{e755}', color: "#e37933" })
    } else if key == "xcstrings"@ {
        Option::Some(FileIcon { icon: '\u{f1ab}', color: "#2596be" })
    } else if key == "xls"@ {
        Option::Some(FileIcon { icon: '\u{f021b}', color: "#207245" })
    } else if key == "xlsx"@ {
        Option::Some(FileIcon { icon: '\u{f021b}', color: "#207245" })
    } else if key == "xm"@ {
        Option::Some(FileIcon { icon: '\u{e691}', color: "#519aba" })
    } else if key == "xml"@ {
        Option::Some(FileIcon { icon: '\u{f05c0}', color: "#e37933" })
    } else if key == "xmobarrc"@ {
        Option::Some(FileIcon { icon: '\u{f35e}', color: "#fd4d5d" })
    } else if key == "xmobarrc.hs"@ {
        Option::Some(FileIcon { icon: '\u{f35e}', color: "#fd4d5d" })
    } else if key == "xmonad.hs"@ {
        Option::Some(FileIcon { icon: '\u{f35e}', color: "#fd4d5d" })
    } else if key == "xorg.conf"@ {
        Option::Some(FileIcon { icon: '\u{f369}', color: "#e54d18" })
    } else if key == "xpi"@ {
        Option::Some(FileIcon { icon: '\u{e786}', color: "#ff1b01" })
    } else if key == "xsettingsd.conf"@ {
        Option::Some(FileIcon { icon: '\u{f369}', color: "#e54d18" })
    } else if key == "xul"@ {
        Option::Some(FileIcon { icon: '\u{e745}', color: "#e37933" })
    } else if key == "xz"@ {
        Option::Some(FileIcon { icon: '\u{f410}', color: "#eca517" })
    } else if key == "yaml"@ {
        Option::Some(FileIcon { icon: '\u{e615}', color: "#6d8086" })
    } else if key == "yml"@ {
        Option::Some(FileIcon { icon: '\u{e615}', color: "#6d8086" })
    } else if key == "zig"@ {
        Option::Some(FileIcon { icon: '\u{e6a9}', color: "#f69a1b" })
    } else if key == "zip"@ {
        Option::Some(FileIcon { icon: '\u{f410}', color: "#eca517" })
    } else if key == "zsh"@ {
        Option::Some(FileIcon { icon: '\u{e795}', color: "#89e051" })
    } else if key == "zst"@ {
        Option::Some(FileIcon { icon: '\u{f410}', color: "#eca517" })
    } else {
        Option::None
    }
}

/// The catalog entry for one file name or extension, if it has one.
pub open spec fn spec_catalog(key: Seq<char>) -> Option<FileIcon> {
    if spec_catalog_special(key) is Some {
        spec_catalog_special(key)
    } else if spec_catalog_a_to_c(key) is Some {
        spec_catalog_a_to_c(key)
    } else if spec_catalog_d_to_g(key) is Some {
        spec_catalog_d_to_g(key)
    } else if spec_catalog_h_to_l(key) is Some {
        spec_catalog_h_to_l(key)
    } else if spec_catalog_m_to_p(key) is Some {
        spec_catalog_m_to_p(key)
    } else if spec_catalog_q_to_s(key) is Some {
        spec_catalog_q_to_s(key)
    } else if spec_catalog_t_to_z(key) is Some {
        spec_catalog_t_to_z(key)
    } else {
        Option::None
    }
}

fn catalog_special(key: &String) -> (r: Option<FileIcon>)
    ensures
        r is Some <==> spec_catalog_special(key@) is Some,
        r matches Some(ic) ==> (ic.icon == spec_catalog_special(key@)->Some_0.icon && ic.color@
            == spec_catalog_special(key@)->Some_0.color@),
{
    if *key == String::from_str(".SRCINFO") {
        Some(FileIcon { icon: '\u{f08c7}', color: "#0f94d2" })
    } else if *key == String::from_str(".Xauthority") {
        Some(FileIcon { icon: '\u{f369}', color: "#e54d18" })
    } else if *key == String::from_str(".Xresources") {
        Some(FileIcon { icon: '\u{f369}', color: "#e54d18" })
    } else if *key == String::from_str(".babelrc") {
        Some(FileIcon { icon: '\u{e639}', color: "#cbcb41" })
    } else if *key == String::from_str(".bash_profile") {
        Some(FileIcon { icon: '\u{e615}', color: "#89e051" })
    } else if *key == String::from_str(".bashrc") {
        Some(FileIcon { icon: '\u{e615}', color: "#89e051" })
    } else if *key == String::from_str(".dockerignore") {
        Some(FileIcon { icon: '\u{f0868}', color: "#458ee6" })
    } else if *key == String::from_str(".ds_store") {
        Some(FileIcon { icon: '\u{e615}', color: "#41535b" })
    } else if *key == String::from_str(".editorconfig") {
        Some(FileIcon { icon: '\u{e652}', color: "#fff2f2" })
    } else if *key == String::from_str(".env") {
        Some(FileIcon { icon: '\u{f462}', color: "#faf743" })
    } else if *key == String::from_str(".eslintignore") {
        Some(FileIcon { icon: '\u{e655}', color: "#4b32c3" })
    } else if *key == String::from_str(".eslintrc") {
        Some(FileIcon { icon: '\u{e655}', color: "#4b32c3" })
    } else if *key == String::from_str(".git-blame-ignore-revs") {
        Some(FileIcon { icon: '\u{e702}', color: "#f54d27" })
    } else if *key == String::from_str(".gitattributes") {
        Some(FileIcon { icon: '\u{e702}', color: "#f54d27" })
    } else if *key == String::from_str(".gitconfig") {
        Some(FileIcon { icon: '\u{e615}', color: "#f54d27" })
    } else if *key == String::from_str(".gitignore") {
        Some(FileIcon { icon: '\u{e702}', color: "#f54d27" })
    } else if *key == String::from_str(".gitlab-ci.yml") {
        Some(FileIcon { icon: '\u{f296}', color: "#e24329" })
    } else if *key == String::from_str(".gitmodules") {
        Some(FileIcon { icon: '\u{e702}', color: "#f54d27" })
    } else if *key == String::from_str(".gtkrc-2.0") {
        Some(FileIcon { icon: '\u{f362}', color: "#ffffff" })
    } else if *key == String::from_str(".gvimrc") {
        Some(FileIcon { icon: '\u{e62b}', color: "#019833" })
    } else if *key == String::from_str(".justfile") {
        Some(FileIcon { icon: '\u{f0ad}', color: "#6d8086" })
    } else if *key == String::from_str(".luaurc") {
        Some(FileIcon { icon: '\u{e615}', color: "#00a2ff" })
    } else if *key == String::from_str(".mailmap") {
        Some(FileIcon { icon: '\u{f02a2}', color: "#f54d27" })
    } else if *key == String::from_str(".npmignore") {
        Some(FileIcon { icon: '\u{e71e}', color: "#E8274B" })
    } else if *key == String::from_str(".npmrc") {
        Some(FileIcon { icon: '\u{e71e}', color: "#E8274B" })
    } else if *key == String::from_str(".nuxtrc") {
        Some(FileIcon { icon: '\u{f1106}', color: "#00c58e" })
    } else if *key == String::from_str(".nvmrc") {
        Some(FileIcon { icon: '\u{e718}', color: "#5FA04E" })
    } else if *key == String::from_str(".prettierignore") {
        Some(FileIcon { icon: '\u{e6b4}', color: "#4285F4" })
    } else if *key == String::from_str(".prettierrc") {
        Some(FileIcon { icon: '\u{e6b4}', color: "#4285F4" })
    } else if *key == String::from_str(".prettierrc.json") {
        Some(FileIcon { icon: '\u{e6b4}', color: "#4285F4" })
    } else if *key == String::from_str(".prettierrc.json5") {
        Some(FileIcon { icon: '\u{e6b4}', color: "#4285F4" })
    } else if *key == String::from_str(".prettierrc.toml") {
        Some(FileIcon { icon: '\u{e6b4}', color: "#4285F4" })
    } else if *key == String::from_str(".prettierrc.yaml") {
        Some(FileIcon { icon: '\u{e6b4}', color: "#4285F4" })
    } else if *key == String::from_str(".prettierrc.yml") {
        Some(FileIcon { icon: '\u{e6b4}', color: "#4285F4" })
    } else if *key == String::from_str(".settings.json") {
        Some(FileIcon { icon: '\u{e70c}', color: "#854CC7" })
    } else if *key == String::from_str(".vimrc") {
        Some(FileIcon { icon: '\u{e62b}', color: "#019833" })
    } else if *key == String::from_str(".xinitrc") {
        Some(FileIcon { icon: '\u{f369}', color: "#e54d18" })
    } else if *key == String::from_str(".xsession") {
        Some(FileIcon { icon: '\u{f369}', color: "#e54d18" })
    } else if *key == String::from_str(".zprofile") {
        Some(FileIcon { icon: '\u{e615}', color: "#89e051" })
    } else if *key == String::from_str(".zshenv") {
        Some(FileIcon { icon: '\u{e615}', color: "#89e051" })
    } else if *key == String::from_str(".zshrc") {
        Some(FileIcon { icon: '\u{e615}', color: "#89e051" })
    } else if *key == String::from_str("3gp") {
        Some(FileIcon { icon: '\u{e69f}', color: "#FD971F" })
    } else if *key == String::from_str("3mf") {
        Some(FileIcon { icon: '\u{f01a7}', color: "#888888" })
    } else if *key == String::from_str("7z") {
        Some(FileIcon { icon: '\u{f410}', color: "#eca517" })
    } else if *key == String::from_str("Dockerfile") {
        Some(FileIcon { icon: '\u{f0868}', color: "#458ee6" })
    } else if *key == String::from_str("FreeCAD.conf") {
        Some(FileIcon { icon: '\u{f336}', color: "#CB333B" })
    } else if *key == String::from_str("PKGBUILD") {
        Some(FileIcon { icon: '\u{f303}', color: "#0f94d2" })
    } else if *key == String::from_str("PrusaSlicer.ini") {
        Some(FileIcon { icon: '\u{f351}', color: "#ec6b23" })
    } else if *key == String::from_str("PrusaSlicerGcodeViewer.ini") {
        Some(FileIcon { icon: '\u{f351}', color: "#ec6b23" })
    } else if *key == String::from_str("QtProject.conf") {
        Some(FileIcon { icon: '\u{f375}', color: "#40cd52" })
    } else if *key == String::from_str("R") {
        Some(FileIcon { icon: '\u{f07d4}', color: "#2266ba" })
    } else if *key == String::from_str("_gvimrc") {
        Some(FileIcon { icon: '\u{e62b}', color: "#019833" })
    } else if *key == String::from_str("_vimrc") {
        Some(FileIcon { icon: '\u{e62b}', color: "#019833" })
    } else if *key == String::from_str("🔥") {
        Some(FileIcon { icon: '\u{f06d}', color: "#ff4c1f" })
    } else {
        None
    }
}

fn catalog_a_to_c(key: &String) -> (r: Option<FileIcon>)
    ensures
        r is Some <==> spec_catalog_a_to_c(key@) is Some,
        r matches Some(ic) ==> (ic.icon == spec_catalog_a_to_c(key@)->Some_0.icon && ic.color@
            == spec_catalog_a_to_c(key@)->Some_0.color@),
{
    if *key == String::from_str("a") {
        Some(FileIcon { icon: '\u{eb9c}', color: "#dcddd6" })
    } else if *key == String::from_str("aac") {
        Some(FileIcon { icon: '\u{f001}', color: "#00afff" })
    } else if *key == String::from_str("ai") {
        Some(FileIcon { icon: '\u{e7b4}', color: "#cbcb41" })
    } else if *key == String::from_str("aif") {
        Some(FileIcon { icon: '\u{f001}', color: "#00afff" })
    } else if *key == String::from_str("aiff") {
        Some(FileIcon { icon: '\u{f001}', color: "#00afff" })
    } else if *key == String::from_str("android") {
        Some(FileIcon { icon: '\u{e70e}', color: "#34a853" })
    } else if *key == String::from_str("ape") {
        Some(FileIcon { icon: '\u{f001}', color: "#00afff" })
    } else if *key == String::from_str("apk") {
        Some(FileIcon { icon: '\u{e70e}', color: "#34a853" })
    } else if *key == String::from_str("apl") {
        Some(FileIcon { icon: '\u{235d}', color: "#ffa500" })
    } else if *key == String::from_str("app") {
        Some(FileIcon { icon: '\u{eae8}', color: "#9F0500" })
    } else if *key == String::from_str("applescript") {
        Some(FileIcon { icon: '\u{f179}', color: "#6d8085" })
    } else if *key == String::from_str("asc") {
        Some(FileIcon { icon: '\u{f099d}', color: "#576d7f" })
    } else if *key == String::from_str("ass") {
        Some(FileIcon { icon: '\u{f0a16}', color: "#ffb713" })
    } else if *key == String::from_str("astro") {
        Some(FileIcon { icon: '\u{e6b3}', color: "#e23f67" })
    } else if *key == String::from_str("avif") {
        Some(FileIcon { icon: '\u{e60d}', color: "#a074c4" })
    } else if *key == String::from_str("awk") {
        Some(FileIcon { icon: '\u{e795}', color: "#4d5a5e" })
    } else if *key == String::from_str("azcli") {
        Some(FileIcon { icon: '\u{ebe8}', color: "#0078d4" })
    } else if *key == String::from_str("bak") {
        Some(FileIcon { icon: '\u{f006f}', color: "#6d8086" })
    } else if *key == String::from_str("bash") {
        Some(FileIcon { icon: '\u{e795}', color: "#89e051" })
    } else if *key == String::from_str("bat") {
        Some(FileIcon { icon: '\u{e615}', color: "#C1F12E" })
    } else if *key == String::from_str("bazel") {
        Some(FileIcon { icon: '\u{e63a}', color: "#89e051" })
    } else if *key == String::from_str("bib") {
        Some(FileIcon { icon: '\u{f125f}', color: "#cbcb41" })
    } else if *key == String::from_str("bicep") {
        Some(FileIcon { icon: '\u{e63b}', color: "#519aba" })
    } else if *key == String::from_str("bicepparam") {
        Some(FileIcon { icon: '\u{e63b}', color: "#9f74b3" })
    } else if *key == String::from_str("bin") {
        Some(FileIcon { icon: '\u{eae8}', color: "#9F0500" })
    } else if *key == String::from_str("blade.php") {
        Some(FileIcon { icon: '\u{f2f7}', color: "#f05340" })
    } else if *key == String::from_str("blend") {
        Some(FileIcon { icon: '\u{f00ab}', color: "#ea7600" })
    } else if *key == String::from_str("blp") {
        Some(FileIcon { icon: '\u{f0ebe}', color: "#5796E2" })
    } else if *key == String::from_str("bmp") {
        Some(FileIcon { icon: '\u{e60d}', color: "#a074c4" })
    } else if *key == String::from_str("bqn") {
        Some(FileIcon { icon: '\u{2389}', color: "#2b7067" })
    } else if *key == String::from_str("brep") {
        Some(FileIcon { icon: '\u{f0eeb}', color: "#839463" })
    } else if *key == String::from_str("brewfile") {
        Some(FileIcon { icon: '\u{e791}', color: "#701516" })
    } else if *key == String::from_str("bspwmrc") {
        Some(FileIcon { icon: '\u{f355}', color: "#2f2f2f" })
    } else if *key == String::from_str("build") {
        Some(FileIcon { icon: '\u{e63a}', color: "#89e051" })
    } else if *key == String::from_str("build.gradle") {
        Some(FileIcon { icon: '\u{e660}', color: "#005f87" })
    } else if *key == String::from_str("build.zig.zon") {
        Some(FileIcon { icon: '\u{e6a9}', color: "#f69a1b" })
    } else if *key == String::from_str("bz") {
        Some(FileIcon { icon: '\u{f410}', color: "#eca517" })
    } else if *key == String::from_str("bz2") {
        Some(FileIcon { icon: '\u{f410}', color: "#eca517" })
    } else if *key == String::from_str("bz3") {
        Some(FileIcon { icon: '\u{f410}', color: "#eca517" })
    } else if *key == String::from_str("bzl") {
        Some(FileIcon { icon: '\u{e63a}', color: "#89e051" })
    } else if *key == String::from_str("c") {
        Some(FileIcon { icon: '\u{e61e}', color: "#599eff" })
    } else if *key == String::from_str("c++") {
        Some(FileIcon { icon: '\u{e61d}', color: "#f34b7d" })
    } else if *key == String::from_str("cache") {
        Some(FileIcon { icon: '\u{f49b}', color: "#ffffff" })
    } else if *key == String::from_str("cantorrc") {
        Some(FileIcon { icon: '\u{f373}', color: "#1c99f3" })
    } else if *key == String::from_str("cast") {
        Some(FileIcon { icon: '\u{e69f}', color: "#FD971F" })
    } else if *key == String::from_str("cbl") {
        Some(FileIcon { icon: '\u{2699}', color: "#005ca5" })
    } else if *key == String::from_str("cc") {
        Some(FileIcon { icon: '\u{e61d}', color: "#f34b7d" })
    } else if *key == String::from_str("ccm") {
        Some(FileIcon { icon: '\u{e61d}', color: "#f34b7d" })
    } else if *key == String::from_str("cfg") {
        Some(FileIcon { icon: '\u{e615}', color: "#6d8086" })
    } else if *key == String::from_str("checkhealth") {
        Some(FileIcon { icon: '\u{f04d9}', color: "#75B4FB" })
    } else if *key == String::from_str("cjs") {
        Some(FileIcon { icon: '\u{e60c}', color: "#cbcb41" })
    } else if *key == String::from_str("clj") {
        Some(FileIcon { icon: '\u{e768}', color: "#8dc149" })
    } else if *key == String::from_str("cljc") {
        Some(FileIcon { icon: '\u{e768}', color: "#8dc149" })
    } else if *key == String::from_str("cljd") {
        Some(FileIcon { icon: '\u{e76a}', color: "#519aba" })
    } else if *key == String::from_str("cljs") {
        Some(FileIcon { icon: '\u{e76a}', color: "#519aba" })
    } else if *key == String::from_str("cmake") {
        Some(FileIcon { icon: '\u{e615}', color: "#6d8086" })
    } else if *key == String::from_str("cmakelists.txt") {
        Some(FileIcon { icon: '\u{e615}', color: "#6d8086" })
    } else if *key == String::from_str("cob") {
        Some(FileIcon { icon: '\u{2699}', color: "#005ca5" })
    } else if *key == String::from_str("cobol") {
        Some(FileIcon { icon: '\u{2699}', color: "#005ca5" })
    } else if *key == String::from_str("code_of_conduct") {
        Some(FileIcon { icon: '\u{f4ae}', color: "#E41662" })
    } else if *key == String::from_str("code_of_conduct.md") {
        Some(FileIcon { icon: '\u{f4ae}', color: "#E41662" })
    } else if *key == String::from_str("coffee") {
        Some(FileIcon { icon: '\u{e61b}', color: "#cbcb41" })
    } else if *key == String::from_str("commit_editmsg") {
        Some(FileIcon { icon: '\u{e702}', color: "#f54d27" })
    } else if *key == String::from_str("commitlint.config.js") {
        Some(FileIcon { icon: '\u{f0718}', color: "#2b9689" })
    } else if *key == String::from_str("commitlint.config.ts") {
        Some(FileIcon { icon: '\u{f0718}', color: "#2b9689" })
    } else if *key == String::from_str("compose.yaml") {
        Some(FileIcon { icon: '\u{f0868}', color: "#458ee6" })
    } else if *key == String::from_str("compose.yml") {
        Some(FileIcon { icon: '\u{f0868}', color: "#458ee6" })
    } else if *key == String::from_str("conf") {
        Some(FileIcon { icon: '\u{e615}', color: "#6d8086" })
    } else if *key == String::from_str("config") {
        Some(FileIcon { icon: '\u{e615}', color: "#6d8086" })
    } else if *key == String::from_str("config.ru") {
        Some(FileIcon { icon: '\u{e791}', color: "#701516" })
    } else if *key == String::from_str("containerfile") {
        Some(FileIcon { icon: '\u{f0868}', color: "#458ee6" })
    } else if *key == String::from_str("copying") {
        Some(FileIcon { icon: '\u{e60a}', color: "#cbcb41" })
    } else if *key == String::from_str("copying.lesser") {
        Some(FileIcon { icon: '\u{e60a}', color: "#cbcb41" })
    } else if *key == String::from_str("cow") {
        Some(FileIcon { icon: '\u{f019a}', color: "#965824" })
    } else if *key == String::from_str("cp") {
        Some(FileIcon { icon: '\u{e61d}', color: "#519aba" })
    } else if *key == String::from_str("cpp") {
        Some(FileIcon { icon: '\u{e61d}', color: "#519aba" })
    } else if *key == String::from_str("cppm") {
        Some(FileIcon { icon: '\u{e61d}', color: "#519aba" })
    } else if *key == String::from_str("cpy") {
        Some(FileIcon { icon: '\u{2699}', color: "#005ca5" })
    } else if *key == String::from_str("cr") {
        Some(FileIcon { icon: '\u{e62f}', color: "#c8c8c8" })
    } else if *key == String::from_str("crdownload") {
        Some(FileIcon { icon: '\u{f019}', color: "#44cda8" })
    } else if *key == String::from_str("cs") {
        Some(FileIcon { icon: '\u{f031b}', color: "#596706" })
    } else if *key == String::from_str("csh") {
        Some(FileIcon { icon: '\u{e795}', color: "#4d5a5e" })
    } else if *key == String::from_str("cshtml") {
        Some(FileIcon { icon: '\u{f1997}', color: "#512bd4" })
    } else if *key == String::from_str("cson") {
        Some(FileIcon { icon: '\u{e60b}', color: "#cbcb41" })
    } else if *key == String::from_str("csproj") {
        Some(FileIcon { icon: '\u{f0aae}', color: "#512bd4" })
    } else if *key == String::from_str("css") {
        Some(FileIcon { icon: '\u{e749}', color: "#42a5f5" })
    } else if *key == String::from_str("csv") {
        Some(FileIcon { icon: '\u{e64a}', color: "#89e051" })
    } else if *key == String::from_str("cts") {
        Some(FileIcon { icon: '\u{e628}', color: "#519aba" })
    } else if *key == String::from_str("cu") {
        Some(FileIcon { icon: '\u{e64b}', color: "#89e051" })
    } else if *key == String::from_str("cue") {
        Some(FileIcon { icon: '\u{f0cb9}', color: "#ed95ae" })
    } else if *key == String::from_str("cuh") {
        Some(FileIcon { icon: '\u{e64b}', color: "#a074c4" })
    } else if *key == String::from_str("cxx") {
        Some(FileIcon { icon: '\u{e61d}', color: "#519aba" })
    } else if *key == String::from_str("cxxm") {
        Some(FileIcon { icon: '\u{e61d}', color: "#519aba" })
    } else {
        None
    }
}

fn catalog_d_to_g(key: &String) -> (r: Option<FileIcon>)
    ensures
        r is Some <==> spec_catalog_d_to_g(key@) is Some,
        r matches Some(ic) ==> (ic.icon == spec_catalog_d_to_g(key@)->Some_0.icon && ic.color@
            == spec_catalog_d_to_g(key@)->Some_0.color@),
{
    if *key == String::from_str("d") {
        Some(FileIcon { icon: '\u{e7af}', color: "#427819" })
    } else if *key == String::from_str("d.ts") {
        Some(FileIcon { icon: '\u{e628}', color: "#d59855" })
    } else if *key == String::from_str("dart") {
        Some(FileIcon { icon: '\u{e798}', color: "#03589C" })
    } else if *key == String::from_str("db") {
        Some(FileIcon { icon: '\u{e706}', color: "#dad8d8" })
    } else if *key == String::from_str("dconf") {
        Some(FileIcon { icon: '\u{f361}', color: "#ffffff" })
    } else if *key == String::from_str("desktop") {
        Some(FileIcon { icon: '\u{f108}', color: "#563d7c" })
    } else if *key == String::from_str("diff") {
        Some(FileIcon { icon: '\u{e728}', color: "#41535b" })
    } else if *key == String::from_str("dll") {
        Some(FileIcon { icon: '\u{eb9c}', color: "#4d2c0b" })
    } else if *key == String::from_str("doc") {
        Some(FileIcon { icon: '\u{f022c}', color: "#185abd" })
    } else if *key == String::from_str("docker-compose.yaml") {
        Some(FileIcon { icon: '\u{f0868}', color: "#458ee6" })
    } else if *key == String::from_str("docker-compose.yml") {
        Some(FileIcon { icon: '\u{f0868}', color: "#458ee6" })
    } else if *key == String::from_str("dockerfile") {
        Some(FileIcon { icon: '\u{f0868}', color: "#458ee6" })
    } else if *key == String::from_str("docx") {
        Some(FileIcon { icon: '\u{f022c}', color: "#185abd" })
    } else if *key == String::from_str("dot") {
        Some(FileIcon { icon: '\u{f1049}', color: "#30638e" })
    } else if *key == String::from_str("download") {
        Some(FileIcon { icon: '\u{f019}', color: "#44cda8" })
    } else if *key == String::from_str("drl") {
        Some(FileIcon { icon: '\u{e28c}', color: "#ffafaf" })
    } else if *key == String::from_str("dropbox") {
        Some(FileIcon { icon: '\u{e707}', color: "#0061FE" })
    } else if *key == String::from_str("dump") {
        Some(FileIcon { icon: '\u{e706}', color: "#dad8d8" })
    } else if *key == String::from_str("dwg") {
        Some(FileIcon { icon: '\u{f0eeb}', color: "#839463" })
    } else if *key == String::from_str("dxf") {
        Some(FileIcon { icon: '\u{f0eeb}', color: "#839463" })
    } else if *key == String::from_str("ebook") {
        Some(FileIcon { icon: '\u{e28b}', color: "#eab16d" })
    } else if *key == String::from_str("edn") {
        Some(FileIcon { icon: '\u{e76a}', color: "#519aba" })
    } else if *key == String::from_str("eex") {
        Some(FileIcon { icon: '\u{e62d}', color: "#a074c4" })
    } else if *key == String::from_str("ejs") {
        Some(FileIcon { icon: '\u{e60e}', color: "#cbcb41" })
    } else if *key == String::from_str("el") {
        Some(FileIcon { icon: '\u{e632}', color: "#8172be" })
    } else if *key == String::from_str("elc") {
        Some(FileIcon { icon: '\u{e632}', color: "#8172be" })
    } else if *key == String::from_str("elf") {
        Some(FileIcon { icon: '\u{eae8}', color: "#9F0500" })
    } else if *key == String::from_str("elm") {
        Some(FileIcon { icon: '\u{e62c}', color: "#519aba" })
    } else if *key == String::from_str("eln") {
        Some(FileIcon { icon: '\u{e632}', color: "#8172be" })
    } else if *key == String::from_str("env") {
        Some(FileIcon { icon: '\u{f462}', color: "#faf743" })
    } else if *key == String::from_str("eot") {
        Some(FileIcon { icon: '\u{f031}', color: "#ECECEC" })
    } else if *key == String::from_str("epp") {
        Some(FileIcon { icon: '\u{e631}', color: "#FFA61A" })
    } else if *key == String::from_str("epub") {
        Some(FileIcon { icon: '\u{e28b}', color: "#eab16d" })
    } else if *key == String::from_str("erb") {
        Some(FileIcon { icon: '\u{e60e}', color: "#701516" })
    } else if *key == String::from_str("erl") {
        Some(FileIcon { icon: '\u{e7b1}', color: "#B83998" })
    } else if *key == String::from_str("eslint.config.cjs") {
        Some(FileIcon { icon: '\u{e655}', color: "#4b32c3" })
    } else if *key == String::from_str("eslint.config.js") {
        Some(FileIcon { icon: '\u{e655}', color: "#4b32c3" })
    } else if *key == String::from_str("eslint.config.mjs") {
        Some(FileIcon { icon: '\u{e655}', color: "#4b32c3" })
    } else if *key == String::from_str("eslint.config.ts") {
        Some(FileIcon { icon: '\u{e655}', color: "#4b32c3" })
    } else if *key == String::from_str("ex") {
        Some(FileIcon { icon: '\u{e62d}', color: "#a074c4" })
    } else if *key == String::from_str("exe") {
        Some(FileIcon { icon: '\u{eae8}', color: "#9F0500" })
    } else if *key == String::from_str("exs") {
        Some(FileIcon { icon: '\u{e62d}', color: "#a074c4" })
    } else if *key == String::from_str("ext_typoscript_setup.txt") {
        Some(FileIcon { icon: '\u{e772}', color: "#FF8700" })
    } else if *key == String::from_str("f#") {
        Some(FileIcon { icon: '\u{e7a7}', color: "#519aba" })
    } else if *key == String::from_str("f3d") {
        Some(FileIcon { icon: '\u{f0eeb}', color: "#839463" })
    } else if *key == String::from_str("f90") {
        Some(FileIcon { icon: '\u{f121a}', color: "#734f96" })
    } else if *key == String::from_str("favicon.ico") {
        Some(FileIcon { icon: '\u{e623}', color: "#cbcb41" })
    } else if *key == String::from_str("fbx") {
        Some(FileIcon { icon: '\u{f01a7}', color: "#888888" })
    } else if *key == String::from_str("fcbak") {
        Some(FileIcon { icon: '\u{f336}', color: "#cb333b" })
    } else if *key == String::from_str("fcmacro") {
        Some(FileIcon { icon: '\u{f336}', color: "#cb333b" })
    } else if *key == String::from_str("fcmat") {
        Some(FileIcon { icon: '\u{f336}', color: "#cb333b" })
    } else if *key == String::from_str("fcparam") {
        Some(FileIcon { icon: '\u{f336}', color: "#cb333b" })
    } else if *key == String::from_str("fcscript") {
        Some(FileIcon { icon: '\u{f336}', color: "#cb333b" })
    } else if *key == String::from_str("fcstd") {
        Some(FileIcon { icon: '\u{f336}', color: "#cb333b" })
    } else if *key == String::from_str("fcstd1") {
        Some(FileIcon { icon: '\u{f336}', color: "#cb333b" })
    } else if *key == String::from_str("fctb") {
        Some(FileIcon { icon: '\u{f336}', color: "#cb333b" })
    } else if *key == String::from_str("fctl") {
        Some(FileIcon { icon: '\u{f336}', color: "#cb333b" })
    } else if *key == String::from_str("fdmdownload") {
        Some(FileIcon { icon: '\u{f019}', color: "#44cda8" })
    } else if *key == String::from_str("fish") {
        Some(FileIcon { icon: '\u{e795}', color: "#4d5a5e" })
    } else if *key == String::from_str("flac") {
        Some(FileIcon { icon: '\u{f001}', color: "#0075aa" })
    } else if *key == String::from_str("flc") {
        Some(FileIcon { icon: '\u{f031}', color: "#ECECEC" })
    } else if *key == String::from_str("flf") {
        Some(FileIcon { icon: '\u{f031}', color: "#ECECEC" })
    } else if *key == String::from_str("fnl") {
        Some(FileIcon { icon: '\u{e6af}', color: "#fff3d7" })
    } else if *key == String::from_str("fp-info-cache") {
        Some(FileIcon { icon: '\u{f34c}', color: "#ffffff" })
    } else if *key == String::from_str("fp-lib-table") {
        Some(FileIcon { icon: '\u{f34c}', color: "#ffffff" })
    } else if *key == String::from_str("fs") {
        Some(FileIcon { icon: '\u{e7a7}', color: "#519aba" })
    } else if *key == String::from_str("fsi") {
        Some(FileIcon { icon: '\u{e7a7}', color: "#519aba" })
    } else if *key == String::from_str("fsscript") {
        Some(FileIcon { icon: '\u{e7a7}', color: "#519aba" })
    } else if *key == String::from_str("fsx") {
        Some(FileIcon { icon: '\u{e7a7}', color: "#519aba" })
    } else if *key == String::from_str("gcode") {
        Some(FileIcon { icon: '\u{f042b}', color: "#1471ad" })
    } else if *key == String::from_str("gd") {
        Some(FileIcon { icon: '\u{e65f}', color: "#6d8086" })
    } else if *key == String::from_str("gemfile$") {
        Some(FileIcon { icon: '\u{e791}', color: "#701516" })
    } else if *key == String::from_str("gemspec") {
        Some(FileIcon { icon: '\u{e791}', color: "#701516" })
    } else if *key == String::from_str("gif") {
        Some(FileIcon { icon: '\u{e60d}', color: "#a074c4" })
    } else if *key == String::from_str("git") {
        Some(FileIcon { icon: '\u{e702}', color: "#F14C28" })
    } else if *key == String::from_str("glb") {
        Some(FileIcon { icon: '\u{f1b2}', color: "#FFB13B" })
    } else if *key == String::from_str("gleam") {
        Some(FileIcon { icon: '\u{f005}', color: "#ffaff3" })
    } else if *key == String::from_str("gnumakefile") {
        Some(FileIcon { icon: '\u{e779}', color: "#6d8086" })
    } else if *key == String::from_str("go") {
        Some(FileIcon { icon: '\u{e627}', color: "#519aba" })
    } else if *key == String::from_str("go.mod") {
        Some(FileIcon { icon: '\u{e627}', color: "#519aba" })
    } else if *key == String::from_str("go.sum") {
        Some(FileIcon { icon: '\u{e627}', color: "#519aba" })
    } else if *key == String::from_str("go.work") {
        Some(FileIcon { icon: '\u{e627}', color: "#519aba" })
    } else if *key == String::from_str("godot") {
        Some(FileIcon { icon: '\u{e65f}', color: "#6d8086" })
    } else if *key == String::from_str("gql") {
        Some(FileIcon { icon: '\u{f20e}', color: "#e535ab" })
    } else if *key == String::from_str("gradle") {
        Some(FileIcon { icon: '\u{e660}', color: "#005f87" })
    } else if *key == String::from_str("gradle-wrapper.properties") {
        Some(FileIcon { icon: '\u{e660}', color: "#005f87" })
    } else if *key == String::from_str("gradle.properties") {
        Some(FileIcon { icon: '\u{e660}', color: "#005f87" })
    } else if *key == String::from_str("gradlew") {
        Some(FileIcon { icon: '\u{e660}', color: "#005f87" })
    } else if *key == String::from_str("graphql") {
        Some(FileIcon { icon: '\u{f20e}', color: "#e535ab" })
    } else if *key == String::from_str("gresource") {
        Some(FileIcon { icon: '\u{f362}', color: "#ffffff" })
    } else if *key == String::from_str("groovy") {
        Some(FileIcon { icon: '\u{e775}', color: "#4a687c" })
    } else if *key == String::from_str("gruntfile.babel.js") {
        Some(FileIcon { icon: '\u{e611}', color: "#e37933" })
    } else if *key == String::from_str("gruntfile.coffee") {
        Some(FileIcon { icon: '\u{e611}', color: "#e37933" })
    } else if *key == String::from_str("gruntfile.js") {
        Some(FileIcon { icon: '\u{e611}', color: "#e37933" })
    } else if *key == String::from_str("gruntfile.ts") {
        Some(FileIcon { icon: '\u{e611}', color: "#e37933" })
    } else if *key == String::from_str("gtkrc") {
        Some(FileIcon { icon: '\u{f362}', color: "#ffffff" })
    } else if *key == String::from_str("gulpfile.babel.js") {
        Some(FileIcon { icon: '\u{e610}', color: "#cc3e44" })
    } else if *key == String::from_str("gulpfile.coffee") {
        Some(FileIcon { icon: '\u{e610}', color: "#cc3e44" })
    } else if *key == String::from_str("gulpfile.js") {
        Some(FileIcon { icon: '\u{e610}', color: "#cc3e44" })
    } else if *key == String::from_str("gulpfile.ts") {
        Some(FileIcon { icon: '\u{e610}', color: "#cc3e44" })
    } else if *key == String::from_str("gv") {
        Some(FileIcon { icon: '\u{f1049}', color: "#30638e" })
    } else if *key == String::from_str("gz") {
        Some(FileIcon { icon: '\u{f410}', color: "#eca517" })
    } else {
        None
    }
}

fn catalog_h_to_l(key: &String) -> (r: Option<FileIcon>)
    ensures
        r is Some <==> spec_catalog_h_to_l(key@) is Some,
        r matches Some(ic) ==> (ic.icon == spec_catalog_h_to_l(key@)->Some_0.icon && ic.color@
            == spec_catalog_h_to_l(key@)->Some_0.color@),
{
    if *key == String::from_str("h") {
        Some(FileIcon { icon: '\u{f0fd}', color: "#a074c4" })
    } else if *key == String::from_str("haml") {
        Some(FileIcon { icon: '\u{e60e}', color: "#eaeae1" })
    } else if *key == String::from_str("hbs") {
        Some(FileIcon { icon: '\u{e60f}', color: "#f0772b" })
    } else if *key == String::from_str("heex") {
        Some(FileIcon { icon: '\u{e62d}', color: "#a074c4" })
    } else if *key == String::from_str("hex") {
        Some(FileIcon { icon: '\u{e667}', color: "#2e63ff" })
    } else if *key == String::from_str("hh") {
        Some(FileIcon { icon: '\u{f0fd}', color: "#a074c4" })
    } else if *key == String::from_str("hpp") {
        Some(FileIcon { icon: '\u{f0fd}', color: "#a074c4" })
    } else if *key == String::from_str("hrl") {
        Some(FileIcon { icon: '\u{e7b1}', color: "#B83998" })
    } else if *key == String::from_str("hs") {
        Some(FileIcon { icon: '\u{e61f}', color: "#a074c4" })
    } else if *key == String::from_str("htm") {
        Some(FileIcon { icon: '\u{e60e}', color: "#e34c26" })
    } else if *key == String::from_str("html") {
        Some(FileIcon { icon: '\u{e736}', color: "#e44d26" })
    } else if *key == String::from_str("huff") {
        Some(FileIcon { icon: '\u{f0858}', color: "#4242c7" })
    } else if *key == String::from_str("hurl") {
        Some(FileIcon { icon: '\u{f0ec}', color: "#ff0288" })
    } else if *key == String::from_str("hx") {
        Some(FileIcon { icon: '\u{e666}', color: "#ea8220" })
    } else if *key == String::from_str("hxx") {
        Some(FileIcon { icon: '\u{f0fd}', color: "#a074c4" })
    } else if *key == String::from_str("hypridle.conf") {
        Some(FileIcon { icon: '\u{f359}', color: "#00aaae" })
    } else if *key == String::from_str("hyprland.conf") {
        Some(FileIcon { icon: '\u{f359}', color: "#00aaae" })
    } else if *key == String::from_str("hyprlock.conf") {
        Some(FileIcon { icon: '\u{f359}', color: "#00aaae" })
    } else if *key == String::from_str("i18n.config.js") {
        Some(FileIcon { icon: '\u{f05ca}', color: "#7986cb" })
    } else if *key == String::from_str("i18n.config.ts") {
        Some(FileIcon { icon: '\u{f05ca}', color: "#7986cb" })
    } else if *key == String::from_str("i3blocks.conf") {
        Some(FileIcon { icon: '\u{f35a}', color: "#e8ebee" })
    } else if *key == String::from_str("i3status.conf") {
        Some(FileIcon { icon: '\u{f35a}', color: "#e8ebee" })
    } else if *key == String::from_str("ical") {
        Some(FileIcon { icon: '\u{f073}', color: "#2B2e83" })
    } else if *key == String::from_str("icalendar") {
        Some(FileIcon { icon: '\u{f073}', color: "#2B2e83" })
    } else if *key == String::from_str("ico") {
        Some(FileIcon { icon: '\u{e60d}', color: "#cbcb41" })
    } else if *key == String::from_str("ics") {
        Some(FileIcon { icon: '\u{f073}', color: "#2B2e83" })
    } else if *key == String::from_str("ifb") {
        Some(FileIcon { icon: '\u{f073}', color: "#2B2e83" })
    } else if *key == String::from_str("ifc") {
        Some(FileIcon { icon: '\u{f0eeb}', color: "#839463" })
    } else if *key == String::from_str("ige") {
        Some(FileIcon { icon: '\u{f0eeb}', color: "#839463" })
    } else if *key == String::from_str("iges") {
        Some(FileIcon { icon: '\u{f0eeb}', color: "#839463" })
    } else if *key == String::from_str("igs") {
        Some(FileIcon { icon: '\u{f0eeb}', color: "#839463" })
    } else if *key == String::from_str("image") {
        Some(FileIcon { icon: '\u{e271}', color: "#d0bec8" })
    } else if *key == String::from_str("img") {
        Some(FileIcon { icon: '\u{e271}', color: "#d0bec8" })
    } else if *key == String::from_str("import") {
        Some(FileIcon { icon: '\u{f0c6}', color: "#ECECEC" })
    } else if *key == String::from_str("info") {
        Some(FileIcon { icon: '\u{f129}', color: "#ffffcd" })
    } else if *key == String::from_str("ini") {
        Some(FileIcon { icon: '\u{e615}', color: "#6d8086" })
    } else if *key == String::from_str("ino") {
        Some(FileIcon { icon: '\u{f34b}', color: "#56b6c2" })
    } else if *key == String::from_str("ionic.config.json") {
        Some(FileIcon { icon: '\u{e7a9}', color: "#4f8ff7" })
    } else if *key == String::from_str("ipynb") {
        Some(FileIcon { icon: '\u{e606}', color: "#51a0cf" })
    } else if *key == String::from_str("iso") {
        Some(FileIcon { icon: '\u{e271}', color: "#d0bec8" })
    } else if *key == String::from_str("ixx") {
        Some(FileIcon { icon: '\u{e61d}', color: "#519aba" })
    } else if *key == String::from_str("java") {
        Some(FileIcon { icon: '\u{e738}', color: "#cc3e44" })
    } else if *key == String::from_str("jl") {
        Some(FileIcon { icon: '\u{e624}', color: "#a270ba" })
    } else if *key == String::from_str("jpeg") {
        Some(FileIcon { icon: '\u{e60d}', color: "#a074c4" })
    } else if *key == String::from_str("jpg") {
        Some(FileIcon { icon: '\u{e60d}', color: "#a074c4" })
    } else if *key == String::from_str("js") {
        Some(FileIcon { icon: '\u{e60c}', color: "#cbcb41" })
    } else if *key == String::from_str("json") {
        Some(FileIcon { icon: '\u{e60b}', color: "#cbcb41" })
    } else if *key == String::from_str("json5") {
        Some(FileIcon { icon: '\u{e60b}', color: "#cbcb41" })
    } else if *key == String::from_str("jsonc") {
        Some(FileIcon { icon: '\u{e60b}', color: "#cbcb41" })
    } else if *key == String::from_str("jsx") {
        Some(FileIcon { icon: '\u{e625}', color: "#20c2e3" })
    } else if *key == String::from_str("justfile") {
        Some(FileIcon { icon: '\u{f0ad}', color: "#6d8086" })
    } else if *key == String::from_str("jwmrc") {
        Some(FileIcon { icon: '\u{f35b}', color: "#0078cd" })
    } else if *key == String::from_str("jxl") {
        Some(FileIcon { icon: '\u{e60d}', color: "#a074c4" })
    } else if *key == String::from_str("kalgebrarc") {
        Some(FileIcon { icon: '\u{f373}', color: "#1c99f3" })
    } else if *key == String::from_str("kbx") {
        Some(FileIcon { icon: '\u{f0bc4}', color: "#737672" })
    } else if *key == String::from_str("kdb") {
        Some(FileIcon { icon: '\u{f23e}', color: "#529b34" })
    } else if *key == String::from_str("kdbx") {
        Some(FileIcon { icon: '\u{f23e}', color: "#529b34" })
    } else if *key == String::from_str("kdeglobals") {
        Some(FileIcon { icon: '\u{f373}', color: "#1c99f3" })
    } else if *key == String::from_str("kdenlive") {
        Some(FileIcon { icon: '\u{f33c}', color: "#83b8f2" })
    } else if *key == String::from_str("kdenlive-layoutsrc") {
        Some(FileIcon { icon: '\u{f33c}', color: "#83b8f2" })
    } else if *key == String::from_str("kdenliverc") {
        Some(FileIcon { icon: '\u{f33c}', color: "#83b8f2" })
    } else if *key == String::from_str("kdenlivetitle") {
        Some(FileIcon { icon: '\u{f33c}', color: "#83b8f2" })
    } else if *key == String::from_str("kicad_dru") {
        Some(FileIcon { icon: '\u{f34c}', color: "#ffffff" })
    } else if *key == String::from_str("kicad_mod") {
        Some(FileIcon { icon: '\u{f34c}', color: "#ffffff" })
    } else if *key == String::from_str("kicad_pcb") {
        Some(FileIcon { icon: '\u{f34c}', color: "#ffffff" })
    } else if *key == String::from_str("kicad_prl") {
        Some(FileIcon { icon: '\u{f34c}', color: "#ffffff" })
    } else if *key == String::from_str("kicad_pro") {
        Some(FileIcon { icon: '\u{f34c}', color: "#ffffff" })
    } else if *key == String::from_str("kicad_sch") {
        Some(FileIcon { icon: '\u{f34c}', color: "#ffffff" })
    } else if *key == String::from_str("kicad_sym") {
        Some(FileIcon { icon: '\u{f34c}', color: "#ffffff" })
    } else if *key == String::from_str("kicad_wks") {
        Some(FileIcon { icon: '\u{f34c}', color: "#ffffff" })
    } else if *key == String::from_str("ko") {
        Some(FileIcon { icon: '\u{f17c}', color: "#dcddd6" })
    } else if *key == String::from_str("kpp") {
        Some(FileIcon { icon: '\u{f33d}', color: "#f245fb" })
    } else if *key == String::from_str("kra") {
        Some(FileIcon { icon: '\u{f33d}', color: "#f245fb" })
    } else if *key == String::from_str("kritadisplayrc") {
        Some(FileIcon { icon: '\u{f33d}', color: "#f245fb" })
    } else if *key == String::from_str("kritarc") {
        Some(FileIcon { icon: '\u{f33d}', color: "#f245fb" })
    } else if *key == String::from_str("krz") {
        Some(FileIcon { icon: '\u{f33d}', color: "#f245fb" })
    } else if *key == String::from_str("ksh") {
        Some(FileIcon { icon: '\u{e795}', color: "#4d5a5e" })
    } else if *key == String::from_str("kt") {
        Some(FileIcon { icon: '\u{e634}', color: "#7F52FF" })
    } else if *key == String::from_str("kts") {
        Some(FileIcon { icon: '\u{e634}', color: "#7F52FF" })
    } else if *key == String::from_str("lck") {
        Some(FileIcon { icon: '\u{e672}', color: "#bbbbbb" })
    } else if *key == String::from_str("leex") {
        Some(FileIcon { icon: '\u{e62d}', color: "#a074c4" })
    } else if *key == String::from_str("less") {
        Some(FileIcon { icon: '\u{e614}', color: "#563d7c" })
    } else if *key == String::from_str("lff") {
        Some(FileIcon { icon: '\u{f031}', color: "#ECECEC" })
    } else if *key == String::from_str("lhs") {
        Some(FileIcon { icon: '\u{e61f}', color: "#a074c4" })
    } else if *key == String::from_str("lib") {
        Some(FileIcon { icon: '\u{eb9c}', color: "#4d2c0b" })
    } else if *key == String::from_str("license") {
        Some(FileIcon { icon: '\u{e60a}', color: "#cbcb41" })
    } else if *key == String::from_str("license.md") {
        Some(FileIcon { icon: '\u{e60a}', color: "#d0bf41" })
    } else if *key == String::from_str("liquid") {
        Some(FileIcon { icon: '\u{e670}', color: "#95BF47" })
    } else if *key == String::from_str("lock") {
        Some(FileIcon { icon: '\u{e672}', color: "#bbbbbb" })
    } else if *key == String::from_str("log") {
        Some(FileIcon { icon: '\u{f0331}', color: "#dddddd" })
    } else if *key == String::from_str("lrc") {
        Some(FileIcon { icon: '\u{f0a16}', color: "#ffb713" })
    } else if *key == String::from_str("lua") {
        Some(FileIcon { icon: '\u{e620}', color: "#51a0cf" })
    } else if *key == String::from_str("luac") {
        Some(FileIcon { icon: '\u{e620}', color: "#51a0cf" })
    } else if *key == String::from_str("luau") {
        Some(FileIcon { icon: '\u{e620}', color: "#00a2ff" })
    } else if *key == String::from_str("lxde-rc.xml") {
        Some(FileIcon { icon: '\u{f363}', color: "#909090" })
    } else if *key == String::from_str("lxqt.conf") {
        Some(FileIcon { icon: '\u{f364}', color: "#0192d3" })
    } else {
        None
    }
}

fn catalog_m_to_p(key: &String) -> (r: Option<FileIcon>)
    ensures
        r is Some <==> spec_catalog_m_to_p(key@) is Some,
        r matches Some(ic) ==> (ic.icon == spec_catalog_m_to_p(key@)->Some_0.icon && ic.color@
            == spec_catalog_m_to_p(key@)->Some_0.color@),
{
    if *key == String::from_str("m") {
        Some(FileIcon { icon: '\u{e61e}', color: "#599eff" })
    } else if *key == String::from_str("m3u") {
        Some(FileIcon { icon: '\u{f0cb9}', color: "#ed95ae" })
    } else if *key == String::from_str("m3u8") {
        Some(FileIcon { icon: '\u{f0cb9}', color: "#ed95ae" })
    } else if *key == String::from_str("m4a") {
        Some(FileIcon { icon: '\u{f001}', color: "#00afff" })
    } else if *key == String::from_str("m4v") {
        Some(FileIcon { icon: '\u{e69f}', color: "#FD971F" })
    } else if *key == String::from_str("magnet") {
        Some(FileIcon { icon: '\u{f076}', color: "#a51b16" })
    } else if *key == String::from_str("makefile") {
        Some(FileIcon { icon: '\u{e779}', color: "#6d8086" })
    } else if *key == String::from_str("markdown") {
        Some(FileIcon { icon: '\u{e609}', color: "#dddddd" })
    } else if *key == String::from_str("material") {
        Some(FileIcon { icon: '\u{f0509}', color: "#B83998" })
    } else if *key == String::from_str("md") {
        Some(FileIcon { icon: '\u{f48a}', color: "#dddddd" })
    } else if *key == String::from_str("md5") {
        Some(FileIcon { icon: '\u{f0565}', color: "#8c86af" })
    } else if *key == String::from_str("mdx") {
        Some(FileIcon { icon: '\u{f48a}', color: "#519aba" })
    } else if *key == String::from_str("mint") {
        Some(FileIcon { icon: '\u{f032a}', color: "#87c095" })
    } else if *key == String::from_str("mix.lock") {
        Some(FileIcon { icon: '\u{e62d}', color: "#a074c4" })
    } else if *key == String::from_str("mjs") {
        Some(FileIcon { icon: '\u{e60c}', color: "#f1e05a" })
    } else if *key == String::from_str("mk") {
        Some(FileIcon { icon: '\u{e779}', color: "#6d8086" })
    } else if *key == String::from_str("mkv") {
        Some(FileIcon { icon: '\u{e69f}', color: "#FD971F" })
    } else if *key == String::from_str("ml") {
        Some(FileIcon { icon: '\u{e67a}', color: "#e37933" })
    } else if *key == String::from_str("mli") {
        Some(FileIcon { icon: '\u{e67a}', color: "#e37933" })
    } else if *key == String::from_str("mm") {
        Some(FileIcon { icon: '\u{e61d}', color: "#519aba" })
    } else if *key == String::from_str("mo") {
        Some(FileIcon { icon: '\u{221e}', color: "#9772FB" })
    } else if *key == String::from_str("mobi") {
        Some(FileIcon { icon: '\u{e28b}', color: "#eab16d" })
    } else if *key == String::from_str("mojo") {
        Some(FileIcon { icon: '\u{f06d}', color: "#ff4c1f" })
    } else if *key == String::from_str("mov") {
        Some(FileIcon { icon: '\u{e69f}', color: "#FD971F" })
    } else if *key == String::from_str("mp3") {
        Some(FileIcon { icon: '\u{f001}', color: "#00afff" })
    } else if *key == String::from_str("mp4") {
        Some(FileIcon { icon: '\u{e69f}', color: "#FD971F" })
    } else if *key == String::from_str("mpp") {
        Some(FileIcon { icon: '\u{e61d}', color: "#519aba" })
    } else if *key == String::from_str("mpv.conf") {
        Some(FileIcon { icon: '\u{f36e}', color: "#3b1342" })
    } else if *key == String::from_str("msf") {
        Some(FileIcon { icon: '\u{f370}', color: "#137be1" })
    } else if *key == String::from_str("mts") {
        Some(FileIcon { icon: '\u{e628}', color: "#519aba" })
    } else if *key == String::from_str("mustache") {
        Some(FileIcon { icon: '\u{e60f}', color: "#e37933" })
    } else if *key == String::from_str("nfo") {
        Some(FileIcon { icon: '\u{f129}', color: "#ffffcd" })
    } else if *key == String::from_str("nim") {
        Some(FileIcon { icon: '\u{e677}', color: "#f3d400" })
    } else if *key == String::from_str("nix") {
        Some(FileIcon { icon: '\u{f313}', color: "#7ebae4" })
    } else if *key == String::from_str("node_modules") {
        Some(FileIcon { icon: '\u{e718}', color: "#E8274B" })
    } else if *key == String::from_str("nswag") {
        Some(FileIcon { icon: '\u{e60b}', color: "#85ea2d" })
    } else if *key == String::from_str("nu") {
        Some(FileIcon { icon: '\u{3e}', color: "#3aa675" })
    } else if *key == String::from_str("nuxt.config.cjs") {
        Some(FileIcon { icon: '\u{f1106}', color: "#00c58e" })
    } else if *key == String::from_str("nuxt.config.js") {
        Some(FileIcon { icon: '\u{f1106}', color: "#00c58e" })
    } else if *key == String::from_str("nuxt.config.mjs") {
        Some(FileIcon { icon: '\u{f1106}', color: "#00c58e" })
    } else if *key == String::from_str("nuxt.config.ts") {
        Some(FileIcon { icon: '\u{f1106}', color: "#00c58e" })
    } else if *key == String::from_str("o") {
        Some(FileIcon { icon: '\u{eae8}', color: "#9F0500" })
    } else if *key == String::from_str("obj") {
        Some(FileIcon { icon: '\u{f01a7}', color: "#888888" })
    } else if *key == String::from_str("ogg") {
        Some(FileIcon { icon: '\u{f001}', color: "#0075aa" })
    } else if *key == String::from_str("opus") {
        Some(FileIcon { icon: '\u{f001}', color: "#0075aa" })
    } else if *key == String::from_str("org") {
        Some(FileIcon { icon: '\u{e633}', color: "#77AA99" })
    } else if *key == String::from_str("otf") {
        Some(FileIcon { icon: '\u{f031}', color: "#ECECEC" })
    } else if *key == String::from_str("out") {
        Some(FileIcon { icon: '\u{eae8}', color: "#9F0500" })
    } else if *key == String::from_str("package-lock.json") {
        Some(FileIcon { icon: '\u{e71e}', color: "#7a0d21" })
    } else if *key == String::from_str("package.json") {
        Some(FileIcon { icon: '\u{e71e}', color: "#e8274b" })
    } else if *key == String::from_str("part") {
        Some(FileIcon { icon: '\u{f019}', color: "#44cda8" })
    } else if *key == String::from_str("patch") {
        Some(FileIcon { icon: '\u{e728}', color: "#41535b" })
    } else if *key == String::from_str("pck") {
        Some(FileIcon { icon: '\u{f487}', color: "#6d8086" })
    } else if *key == String::from_str("pcm") {
        Some(FileIcon { icon: '\u{f001}', color: "#0075aa" })
    } else if *key == String::from_str("pdf") {
        Some(FileIcon { icon: '\u{eaeb}', color: "#b30b00" })
    } else if *key == String::from_str("php") {
        Some(FileIcon { icon: '\u{e608}', color: "#a074c4" })
    } else if *key == String::from_str("pl") {
        Some(FileIcon { icon: '\u{e769}', color: "#519aba" })
    } else if *key == String::from_str("platformio.ini") {
        Some(FileIcon { icon: '\u{e682}', color: "#f6822b" })
    } else if *key == String::from_str("pls") {
        Some(FileIcon { icon: '\u{f0cb9}', color: "#ed95ae" })
    } else if *key == String::from_str("ply") {
        Some(FileIcon { icon: '\u{f01a7}', color: "#888888" })
    } else if *key == String::from_str("pm") {
        Some(FileIcon { icon: '\u{e769}', color: "#519aba" })
    } else if *key == String::from_str("png") {
        Some(FileIcon { icon: '\u{e60d}', color: "#a074c4" })
    } else if *key == String::from_str("po") {
        Some(FileIcon { icon: '\u{f1ab}', color: "#2596be" })
    } else if *key == String::from_str("pom.xml") {
        Some(FileIcon { icon: '\u{e674}', color: "#7a0d21" })
    } else if *key == String::from_str("pot") {
        Some(FileIcon { icon: '\u{f1ab}', color: "#2596be" })
    } else if *key == String::from_str("pp") {
        Some(FileIcon { icon: '\u{e631}', color: "#FFA61A" })
    } else if *key == String::from_str("ppt") {
        Some(FileIcon { icon: '\u{f0227}', color: "#cb4a32" })
    } else if *key == String::from_str("prettier.config.cjs") {
        Some(FileIcon { icon: '\u{e6b4}', color: "#4285F4" })
    } else if *key == String::from_str("prettier.config.js") {
        Some(FileIcon { icon: '\u{e6b4}', color: "#4285F4" })
    } else if *key == String::from_str("prettier.config.mjs") {
        Some(FileIcon { icon: '\u{e6b4}', color: "#4285F4" })
    } else if *key == String::from_str("prettier.config.ts") {
        Some(FileIcon { icon: '\u{e6b4}', color: "#4285F4" })
    } else if *key == String::from_str("prisma") {
        Some(FileIcon { icon: '\u{e684}', color: "#5a67d8" })
    } else if *key == String::from_str("pro") {
        Some(FileIcon { icon: '\u{e7a1}', color: "#e4b854" })
    } else if *key == String::from_str("procfile") {
        Some(FileIcon { icon: '\u{e607}', color: "#a074c4" })
    } else if *key == String::from_str("ps1") {
        Some(FileIcon { icon: '\u{f0a0a}', color: "#4273ca" })
    } else if *key == String::from_str("psb") {
        Some(FileIcon { icon: '\u{e7b8}', color: "#519aba" })
    } else if *key == String::from_str("psd") {
        Some(FileIcon { icon: '\u{e7b8}', color: "#519aba" })
    } else if *key == String::from_str("psd1") {
        Some(FileIcon { icon: '\u{f0a0a}', color: "#6975c4" })
    } else if *key == String::from_str("psm1") {
        Some(FileIcon { icon: '\u{f0a0a}', color: "#6975c4" })
    } else if *key == String::from_str("pub") {
        Some(FileIcon { icon: '\u{f0dd6}', color: "#e3c58e" })
    } else if *key == String::from_str("pxd") {
        Some(FileIcon { icon: '\u{e606}', color: "#5aa7e4" })
    } else if *key == String::from_str("pxi") {
        Some(FileIcon { icon: '\u{e606}', color: "#5aa7e4" })
    } else if *key == String::from_str("py") {
        Some(FileIcon { icon: '\u{e606}', color: "#ffbc03" })
    } else if *key == String::from_str("py.typed") {
        Some(FileIcon { icon: '\u{e606}', color: "#ffbc03" })
    } else if *key == String::from_str("pyc") {
        Some(FileIcon { icon: '\u{e606}', color: "#ffe291" })
    } else if *key == String::from_str("pyd") {
        Some(FileIcon { icon: '\u{e606}', color: "#ffe291" })
    } else if *key == String::from_str("pyi") {
        Some(FileIcon { icon: '\u{e606}', color: "#ffbc03" })
    } else if *key == String::from_str("pyo") {
        Some(FileIcon { icon: '\u{e606}', color: "#ffe291" })
    } else if *key == String::from_str("pyw") {
        Some(FileIcon { icon: '\u{e606}', color: "#5aa7e4" })
    } else if *key == String::from_str("pyx") {
        Some(FileIcon { icon: '\u{e606}', color: "#5aa7e4" })
    } else {
        None
    }
}

fn catalog_q_to_s(key: &String) -> (r: Option<FileIcon>)
    ensures
        r is Some <==> spec_catalog_q_to_s(key@) is Some,
        r matches Some(ic) ==> (ic.icon == spec_catalog_q_to_s(key@)->Some_0.icon && ic.color@
            == spec_catalog_q_to_s(key@)->Some_0.color@),
{
    if *key == String::from_str("qm") {
        Some(FileIcon { icon: '\u{f1ab}', color: "#2596be" })
    } else if *key == String::from_str("qml") {
        Some(FileIcon { icon: '\u{f375}', color: "#40cd52" })
    } else if *key == String::from_str("qrc") {
        Some(FileIcon { icon: '\u{f375}', color: "#40cd52" })
    } else if *key == String::from_str("qss") {
        Some(FileIcon { icon: '\u{f375}', color: "#40cd52" })
    } else if *key == String::from_str("query") {
        Some(FileIcon { icon: '\u{e21c}', color: "#90a850" })
    } else if *key == String::from_str("r") {
        Some(FileIcon { icon: '\u{f07d4}', color: "#2266ba" })
    } else if *key == String::from_str("rake") {
        Some(FileIcon { icon: '\u{e791}', color: "#701516" })
    } else if *key == String::from_str("rakefile") {
        Some(FileIcon { icon: '\u{e791}', color: "#701516" })
    } else if *key == String::from_str("rar") {
        Some(FileIcon { icon: '\u{f410}', color: "#eca517" })
    } else if *key == String::from_str("razor") {
        Some(FileIcon { icon: '\u{f1998}', color: "#512bd4" })
    } else if *key == String::from_str("rb") {
        Some(FileIcon { icon: '\u{e791}', color: "#701516" })
    } else if *key == String::from_str("res") {
        Some(FileIcon { icon: '\u{e688}', color: "#cc3e44" })
    } else if *key == String::from_str("resi") {
        Some(FileIcon { icon: '\u{e688}', color: "#f55385" })
    } else if *key == String::from_str("rlib") {
        Some(FileIcon { icon: '\u{e7a8}', color: "#dea584" })
    } else if *key == String::from_str("rmd") {
        Some(FileIcon { icon: '\u{e609}', color: "#519aba" })
    } else if *key == String::from_str("robots.txt") {
        Some(FileIcon { icon: '\u{f06a9}', color: "#5d7096" })
    } else if *key == String::from_str("rproj") {
        Some(FileIcon { icon: '\u{f05c6}', color: "#358a5b" })
    } else if *key == String::from_str("rs") {
        Some(FileIcon { icon: '\u{e68b}', color: "#dea584" })
    } else if *key == String::from_str("rss") {
        Some(FileIcon { icon: '\u{e619}', color: "#FB9D3B" })
    } else if *key == String::from_str("sass") {
        Some(FileIcon { icon: '\u{e603}', color: "#f55385" })
    } else if *key == String::from_str("sbt") {
        Some(FileIcon { icon: '\u{e737}', color: "#cc3e44" })
    } else if *key == String::from_str("sc") {
        Some(FileIcon { icon: '\u{e737}', color: "#cc3e44" })
    } else if *key == String::from_str("scad") {
        Some(FileIcon { icon: '\u{f34e}', color: "#f9d72c" })
    } else if *key == String::from_str("scala") {
        Some(FileIcon { icon: '\u{e737}', color: "#cc3e44" })
    } else if *key == String::from_str("scm") {
        Some(FileIcon { icon: '\u{f0627}', color: "#eeeeee" })
    } else if *key == String::from_str("scss") {
        Some(FileIcon { icon: '\u{e603}', color: "#f55385" })
    } else if *key == String::from_str("security") {
        Some(FileIcon { icon: '\u{f0483}', color: "#BEC4C9" })
    } else if *key == String::from_str("security.md") {
        Some(FileIcon { icon: '\u{f0483}', color: "#BEC4C9" })
    } else if *key == String::from_str("settings.gradle") {
        Some(FileIcon { icon: '\u{e660}', color: "#005f87" })
    } else if *key == String::from_str("sh") {
        Some(FileIcon { icon: '\u{e795}', color: "#4d5a5e" })
    } else if *key == String::from_str("sha1") {
        Some(FileIcon { icon: '\u{f0565}', color: "#8c86af" })
    } else if *key == String::from_str("sha224") {
        Some(FileIcon { icon: '\u{f0565}', color: "#8c86af" })
    } else if *key == String::from_str("sha256") {
        Some(FileIcon { icon: '\u{f0565}', color: "#8c86af" })
    } else if *key == String::from_str("sha384") {
        Some(FileIcon { icon: '\u{f0565}', color: "#8c86af" })
    } else if *key == String::from_str("sha512") {
        Some(FileIcon { icon: '\u{f0565}', color: "#8c86af" })
    } else if *key == String::from_str("sig") {
        Some(FileIcon { icon: '\u{3bb}', color: "#e37933" })
    } else if *key == String::from_str("signature") {
        Some(FileIcon { icon: '\u{3bb}', color: "#e37933" })
    } else if *key == String::from_str("skp") {
        Some(FileIcon { icon: '\u{f0eeb}', color: "#839463" })
    } else if *key == String::from_str("sldasm") {
        Some(FileIcon { icon: '\u{f0eeb}', color: "#839463" })
    } else if *key == String::from_str("sldprt") {
        Some(FileIcon { icon: '\u{f0eeb}', color: "#839463" })
    } else if *key == String::from_str("slim") {
        Some(FileIcon { icon: '\u{e60e}', color: "#e34c26" })
    } else if *key == String::from_str("sln") {
        Some(FileIcon { icon: '\u{e70c}', color: "#854CC7" })
    } else if *key == String::from_str("slvs") {
        Some(FileIcon { icon: '\u{f0eeb}', color: "#839463" })
    } else if *key == String::from_str("sml") {
        Some(FileIcon { icon: '\u{3bb}', color: "#e37933" })
    } else if *key == String::from_str("so") {
        Some(FileIcon { icon: '\u{eb9c}', color: "#dcddd6" })
    } else if *key == String::from_str("sol") {
        Some(FileIcon { icon: '\u{e656}', color: "#519aba" })
    } else if *key == String::from_str("spec.js") {
        Some(FileIcon { icon: '\u{f499}', color: "#cbcb41" })
    } else if *key == String::from_str("spec.jsx") {
        Some(FileIcon { icon: '\u{f499}', color: "#20c2e3" })
    } else if *key == String::from_str("spec.ts") {
        Some(FileIcon { icon: '\u{f499}', color: "#519aba" })
    } else if *key == String::from_str("spec.tsx") {
        Some(FileIcon { icon: '\u{f499}', color: "#1354bf" })
    } else if *key == String::from_str("sql") {
        Some(FileIcon { icon: '\u{e706}', color: "#dad8d8" })
    } else if *key == String::from_str("sqlite") {
        Some(FileIcon { icon: '\u{e706}', color: "#dad8d8" })
    } else if *key == String::from_str("sqlite3") {
        Some(FileIcon { icon: '\u{e706}', color: "#dad8d8" })
    } else if *key == String::from_str("srt") {
        Some(FileIcon { icon: '\u{f0a16}', color: "#ffb713" })
    } else if *key == String::from_str("ssa") {
        Some(FileIcon { icon: '\u{f0a16}', color: "#ffb713" })
    } else if *key == String::from_str("ste") {
        Some(FileIcon { icon: '\u{f0eeb}', color: "#839463" })
    } else if *key == String::from_str("step") {
        Some(FileIcon { icon: '\u{f0eeb}', color: "#839463" })
    } else if *key == String::from_str("stl") {
        Some(FileIcon { icon: '\u{f01a7}', color: "#888888" })
    } else if *key == String::from_str("stp") {
        Some(FileIcon { icon: '\u{f0eeb}', color: "#839463" })
    } else if *key == String::from_str("strings") {
        Some(FileIcon { icon: '\u{f1ab}', color: "#2596be" })
    } else if *key == String::from_str("styl") {
        Some(FileIcon { icon: '\u{e600}', color: "#8dc149" })
    } else if *key == String::from_str("sub") {
        Some(FileIcon { icon: '\u{f0a16}', color: "#ffb713" })
    } else if *key == String::from_str("sublime") {
        Some(FileIcon { icon: '\u{e7aa}', color: "#e37933" })
    } else if *key == String::from_str("suo") {
        Some(FileIcon { icon: '\u{e70c}', color: "#854CC7" })
    } else if *key == String::from_str("sv") {
        Some(FileIcon { icon: '\u{f035b}', color: "#019833" })
    } else if *key == String::from_str("svelte") {
        Some(FileIcon { icon: '\u{e697}', color: "#ff3e00" })
    } else if *key == String::from_str("svelte.config.js") {
        Some(FileIcon { icon: '\u{e697}', color: "#ff3e00" })
    } else if *key == String::from_str("svg") {
        Some(FileIcon { icon: '\u{f0721}', color: "#FFB13B" })
    } else if *key == String::from_str("svh") {
        Some(FileIcon { icon: '\u{f035b}', color: "#019833" })
    } else if *key == String::from_str("swift") {
        Some(FileIcon { icon: '\u{e755}', color: "#e37933" })
    } else if *key == String::from_str("sxhkdrc") {
        Some(FileIcon { icon: '\u{f355}', color: "#2f2f2f" })
    } else if *key == String::from_str("sym-lib-table") {
        Some(FileIcon { icon: '\u{f34c}', color: "#ffffff" })
    } else {
        None
    }
}

fn catalog_t_to_z(key: &String) -> (r: Option<FileIcon>)
    ensures
        r is Some <==> spec_catalog_t_to_z(key@) is Some,
        r matches Some(ic) ==> (ic.icon == spec_catalog_t_to_z(key@)->Some_0.icon && ic.color@
            == spec_catalog_t_to_z(key@)->Some_0.color@),
{
    if *key == String::from_str("t") {
        Some(FileIcon { icon: '\u{e769}', color: "#519aba" })
    } else if *key == String::from_str("tailwind.config.js") {
        Some(FileIcon { icon: '\u{f13ff}', color: "#20c2e3" })
    } else if *key == String::from_str("tailwind.config.mjs") {
        Some(FileIcon { icon: '\u{f13ff}', color: "#20c2e3" })
    } else if *key == String::from_str("tailwind.config.ts") {
        Some(FileIcon { icon: '\u{f13ff}', color: "#20c2e3" })
    } else if *key == String::from_str("tbc") {
        Some(FileIcon { icon: '\u{f06d3}', color: "#1e5cb3" })
    } else if *key == String::from_str("tcl") {
        Some(FileIcon { icon: '\u{f06d3}', color: "#1e5cb3" })
    } else if *key == String::from_str("templ") {
        Some(FileIcon { icon: '\u{eac4}', color: "#dbbd30" })
    } else if *key == String::from_str("terminal") {
        Some(FileIcon { icon: '\u{f489}', color: "#31B53E" })
    } else if *key == String::from_str("test.js") {
        Some(FileIcon { icon: '\u{f499}', color: "#cbcb41" })
    } else if *key == String::from_str("test.jsx") {
        Some(FileIcon { icon: '\u{f499}', color: "#20c2e3" })
    } else if *key == String::from_str("test.ts") {
        Some(FileIcon { icon: '\u{f499}', color: "#519aba" })
    } else if *key == String::from_str("test.tsx") {
        Some(FileIcon { icon: '\u{f499}', color: "#1354bf" })
    } else if *key == String::from_str("tex") {
        Some(FileIcon { icon: '\u{e69b}', color: "#3D6117" })
    } else if *key == String::from_str("tf") {
        Some(FileIcon { icon: '\u{e69a}', color: "#5F43E9" })
    } else if *key == String::from_str("tfvars") {
        Some(FileIcon { icon: '\u{f15b}', color: "#5F43E9" })
    } else if *key == String::from_str("tgz") {
        Some(FileIcon { icon: '\u{f410}', color: "#eca517" })
    } else if *key == String::from_str("tmux") {
        Some(FileIcon { icon: '\u{ebc8}', color: "#14ba19" })
    } else if *key == String::from_str("tmux.conf") {
        Some(FileIcon { icon: '\u{ebc8}', color: "#14ba19" })
    } else if *key == String::from_str("tmux.conf.local") {
        Some(FileIcon { icon: '\u{ebc8}', color: "#14ba19" })
    } else if *key == String::from_str("toml") {
        Some(FileIcon { icon: '\u{e6b2}', color: "#9c4221" })
    } else if *key == String::from_str("torrent") {
        Some(FileIcon { icon: '\u{f019}', color: "#44cda8" })
    } else if *key == String::from_str("tres") {
        Some(FileIcon { icon: '\u{e65f}', color: "#6d8086" })
    } else if *key == String::from_str("ts") {
        Some(FileIcon { icon: '\u{e628}', color: "#519aba" })
    } else if *key == String::from_str("tscn") {
        Some(FileIcon { icon: '\u{e65f}', color: "#6d8086" })
    } else if *key == String::from_str("tsconfig") {
        Some(FileIcon { icon: '\u{e772}', color: "#FF8700" })
    } else if *key == String::from_str("tsconfig.json") {
        Some(FileIcon { icon: '\u{e69d}', color: "#519aba" })
    } else if *key == String::from_str("tsx") {
        Some(FileIcon { icon: '\u{e7ba}', color: "#1354bf" })
    } else if *key == String::from_str("ttf") {
        Some(FileIcon { icon: '\u{f031}', color: "#ECECEC" })
    } else if *key == String::from_str("twig") {
        Some(FileIcon { icon: '\u{e61c}', color: "#8dc149" })
    } else if *key == String::from_str("txt") {
        Some(FileIcon { icon: '\u{f0219}', color: "#89e051" })
    } else if *key == String::from_str("txz") {
        Some(FileIcon { icon: '\u{f410}', color: "#eca517" })
    } else if *key == String::from_str("typoscript") {
        Some(FileIcon { icon: '\u{e772}', color: "#FF8700" })
    } else if *key == String::from_str("ui") {
        Some(FileIcon { icon: '\u{f2d0}', color: "#015BF0" })
    } else if *key == String::from_str("unlicense") {
        Some(FileIcon { icon: '\u{e60a}', color: "#d0bf41" })
    } else if *key == String::from_str("v") {
        Some(FileIcon { icon: '\u{f035b}', color: "#019833" })
    } else if *key == String::from_str("vagrantfile$") {
        Some(FileIcon { icon: '\u{f2b8}', color: "#1563FF" })
    } else if *key == String::from_str("vala") {
        Some(FileIcon { icon: '\u{e69e}', color: "#7239b3" })
    } else if *key == String::from_str("vercel.json") {
        Some(FileIcon { icon: '\u{25b2}', color: "#ffffff" })
    } else if *key == String::from_str("vh") {
        Some(FileIcon { icon: '\u{f035b}', color: "#019833" })
    } else if *key == String::from_str("vhd") {
        Some(FileIcon { icon: '\u{f035b}', color: "#019833" })
    } else if *key == String::from_str("vhdl") {
        Some(FileIcon { icon: '\u{f035b}', color: "#019833" })
    } else if *key == String::from_str("vim") {
        Some(FileIcon { icon: '\u{e62b}', color: "#019833" })
    } else if *key == String::from_str("vlcrc") {
        Some(FileIcon { icon: '\u{f057c}', color: "#ee7a00" })
    } else if *key == String::from_str("vsh") {
        Some(FileIcon { icon: '\u{e6ac}', color: "#5d87bf" })
    } else if *key == String::from_str("vsix") {
        Some(FileIcon { icon: '\u{e70c}', color: "#854CC7" })
    } else if *key == String::from_str("vue") {
        Some(FileIcon { icon: '\u{e6a0}', color: "#8dc149" })
    } else if *key == String::from_str("wasm") {
        Some(FileIcon { icon: '\u{e6a1}', color: "#5c4cdb" })
    } else if *key == String::from_str("wav") {
        Some(FileIcon { icon: '\u{f001}', color: "#00afff" })
    } else if *key == String::from_str("webm") {
        Some(FileIcon { icon: '\u{e69f}', color: "#FD971F" })
    } else if *key == String::from_str("webmanifest") {
        Some(FileIcon { icon: '\u{e60b}', color: "#f1e05a" })
    } else if *key == String::from_str("webp") {
        Some(FileIcon { icon: '\u{e60d}', color: "#a074c4" })
    } else if *key == String::from_str("webpack") {
        Some(FileIcon { icon: '\u{f072b}', color: "#519aba" })
    } else if *key == String::from_str("weston.ini") {
        Some(FileIcon { icon: '\u{f367}', color: "#ffbb01" })
    } else if *key == String::from_str("wma") {
        Some(FileIcon { icon: '\u{f001}', color: "#00afff" })
    } else if *key == String::from_str("woff") {
        Some(FileIcon { icon: '\u{f031}', color: "#ECECEC" })
    } else if *key == String::from_str("woff2") {
        Some(FileIcon { icon: '\u{f031}', color: "#ECECEC" })
    } else if *key == String::from_str("workspace") {
        Some(FileIcon { icon: '\u{e63a}', color: "#89e051" })
    } else if *key == String::from_str("wrl") {
        Some(FileIcon { icon: '\u{f01a7}', color: "#888888" })
    } else if *key == String::from_str("wrz") {
        Some(FileIcon { icon: '\u{f01a7}', color: "#888888" })
    } else if *key == String::from_str("wv") {
        Some(FileIcon { icon: '\u{f001}', color: "#00afff" })
    } else if *key == String::from_str("wvc") {
        Some(FileIcon { icon: '\u{f001}', color: "#00afff" })
    } else if *key == String::from_str("x") {
        Some(FileIcon { icon: '\u{e691}', color: "#599eff" })
    } else if *key == String::from_str("xaml") {
        Some(FileIcon { icon: '\u{f0673}', color: "#512bd4" })
    } else if *key == String::from_str("xcf") {
        Some(FileIcon { icon: '\u{f338}', color: "#635b46" })
    } else if *key == String::from_str("xcplayground") {
        Some(FileIcon { icon: '\u{e755}', color: "#e37933" })
    } else if *key == String::from_str("xcstrings") {
        Some(FileIcon { icon: '\u{f1ab}', color: "#2596be" })
    } else if *key == String::from_str("xls") {
        Some(FileIcon { icon: '\u{f021b}', color: "#207245" })
    } else if *key == String::from_str("xlsx") {
        Some(FileIcon { icon: '\u{f021b}', color: "#207245" })
    } else if *key == String::from_str("xm") {
        Some(FileIcon { icon: '\u{e691}', color: "#519aba" })
    } else if *key == String::from_str("xml") {
        Some(FileIcon { icon: '\u{f05c0}', color: "#e37933" })
    } else if *key == String::from_str("xmobarrc") {
        Some(FileIcon { icon: '\u{f35e}', color: "#fd4d5d" })
    } else if *key == String::from_str("xmobarrc.hs") {
        Some(FileIcon { icon: '\u{f35e}', color: "#fd4d5d" })
    } else if *key == String::from_str("xmonad.hs") {
        Some(FileIcon { icon: '\u{f35e}', color: "#fd4d5d" })
    } else if *key == String::from_str("xorg.conf") {
        Some(FileIcon { icon: '\u{f369}', color: "#e54d18" })
    } else if *key == String::from_str("xpi") {
        Some(FileIcon { icon: '\u{e786}', color: "#ff1b01" })
    } else if *key == String::from_str("xsettingsd.conf") {
        Some(FileIcon { icon: '\u{f369}', color: "#e54d18" })
    } else if *key == String::from_str("xul") {
        Some(FileIcon { icon: '\u{e745}', color: "#e37933" })
    } else if *key == String::from_str("xz") {
        Some(FileIcon { icon: '\u{f410}', color: "#eca517" })
    } else if *key == String::from_str("yaml") {
        Some(FileIcon { icon: '\u{e615}', color: "#6d8086" })
    } else if *key == String::from_str("yml") {
        Some(FileIcon { icon: '\u{e615}', color: "#6d8086" })
    } else if *key == String::from_str("zig") {
        Some(FileIcon { icon: '\u{e6a9}', color: "#f69a1b" })
    } else if *key == String::from_str("zip") {
        Some(FileIcon { icon: '\u{f410}', color: "#eca517" })
    } else if *key == String::from_str("zsh") {
        Some(FileIcon { icon: '\u{e795}', color: "#89e051" })
    } else if *key == String::from_str("zst") {
        Some(FileIcon { icon: '\u{f410}', color: "#eca517" })
    } else {
        None
    }
}

fn catalog_icon(key: &String) -> (r: Option<FileIcon>)
    ensures
        r is Some <==> spec_catalog(key@) is Some,
        r matches Some(ic) ==> (ic.icon == spec_catalog(key@)->Some_0.icon && ic.color@
            == spec_catalog(key@)->Some_0.color@),
{
    if let Some(icon) = catalog_special(key) {
        Some(icon)
    } else if let Some(icon) = catalog_a_to_c(key) {
        Some(icon)
    } else if let Some(icon) = catalog_d_to_g(key) {
        Some(icon)
    } else if let Some(icon) = catalog_h_to_l(key) {
        Some(icon)
    } else if let Some(icon) = catalog_m_to_p(key) {
        Some(icon)
    } else if let Some(icon) = catalog_q_to_s(key) {
        Some(icon)
    } else if let Some(icon) = catalog_t_to_z(key) {
        Some(icon)
    } else {
        None
    }
}

/// The generic file icon.
pub open spec fn spec_default_file_icon() -> FileIcon {
    FileIcon { icon: '\u{f016}', color: "#7e8e91" }
}

/// The generic directory icon.
pub open spec fn spec_default_dir_icon() -> FileIcon {
    FileIcon { icon: '\u{f115}', color: "#7e8e91" }
}

/// The icon a file resolves to: its exact name first, its extension second,
/// the generic directory icon for a name that ends in a separator, and the
/// generic file icon otherwise.
pub open spec fn spec_icon_for_file(f: File) -> FileIcon {
    match spec_catalog(f.name@) {
        Option::Some(icon) => icon,
        Option::None => match f.ext {
            Option::Some(e) => match spec_catalog(e@) {
                Option::Some(icon) => icon,
                Option::None => spec_default_file_icon(),
            },
            Option::None => if f.name@.len() > 0 && f.name@.last() == '/' {
                spec_default_dir_icon()
            } else {
                spec_default_file_icon()
            },
        },
    }
}

/// Look a file's icon up: by exact name, then by extension, then the
/// defaults.
pub fn icon_for_file(file: &File) -> (r: FileIcon)
    ensures
        r.icon == spec_icon_for_file(*file).icon,
        r.color@ == spec_icon_for_file(*file).color@,
{
    match catalog_icon(&file.name) {
        Some(icon) => icon,
        None => match &file.ext {
            Some(extension) => match catalog_icon(extension) {
                Some(icon) => icon,
                None => FileIcon { icon: '\u{f016}', color: "#7e8e91" },
            },
            None => {
                if file.points_to_directory() {
                    FileIcon { icon: '\u{f115}', color: "#7e8e91" }
                } else {
                    FileIcon { icon: '\u{f016}', color: "#7e8e91" }
                }
            },
        },
    }
}

} // verus!
