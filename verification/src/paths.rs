//! Names and kinds of entries: the final component of a Unix path, its extension, and the
//! broad content kind that the explorer shows for a name.

use vstd::prelude::*;

use crate::text::{ascii_lower_seq, ascii_lowercase, chars_of, str_eq, string_from_chars, string_from_range};

verus! {

broadcast use vstd::seq_lib::group_seq_properties;

/// How many characters `c` end `s`.
pub open spec fn trailing_count(s: Seq<char>, c: char) -> nat
    decreases s.len(),
{
    if s.len() > 0 && s.last() == c {
        1 + trailing_count(s.drop_last(), c)
    } else {
        0
    }
}

/// The position of the last `c` in `s`, or -1.
pub open spec fn last_index(s: Seq<char>, c: char) -> int
    decreases s.len(),
{
    if s.len() == 0 {
        -1
    } else if s.last() == c {
        s.len() - 1
    } else {
        last_index(s.drop_last(), c)
    }
}

pub proof fn lemma_trailing_count(s: Seq<char>, c: char)
    ensures
        trailing_count(s, c) <= s.len(),
    decreases s.len(),
{
    if s.len() > 0 && s.last() == c {
        lemma_trailing_count(s.drop_last(), c);
    }
}

pub proof fn lemma_last_index(s: Seq<char>, c: char)
    ensures
        -1 <= last_index(s, c) < s.len(),
        last_index(s, c) >= 0 ==> s[last_index(s, c)] == c,
        forall|i: int| last_index(s, c) < i < s.len() ==> s[i] != c,
    decreases s.len(),
{
    if s.len() > 0 && s.last() != c {
        lemma_last_index(s.drop_last(), c);
        assert forall|i: int| last_index(s, c) < i < s.len() implies s[i] != c by {
            if i < s.len() - 1 {
                assert(s[i] == s.drop_last()[i]);
            }
        }
    }
}

/// The final component of a Unix path, as `Path::file_name` gives it: trailing separators
/// and `.` components do not count, and there is none for a root, an empty path or a path
/// that ends in `..`.
pub open spec fn file_name(s: Seq<char>) -> Option<Seq<char>>
    decreases s.len(),
{
    let t = s.take(s.len() - trailing_count(s, '/'));
    let k = last_index(t, '/');
    proof {
        lemma_trailing_count(s, '/');
        lemma_last_index(t, '/');
    }
    if t.len() == 0 {
        None
    } else if t.skip(k + 1) == "."@ {
        if k < 0 {
            None
        } else {
            file_name(t.take(k))
        }
    } else if t.skip(k + 1) == ".."@ {
        None
    } else {
        Some(t.skip(k + 1))
    }
}

/// The extension of a file name, as `Path::extension` gives it: what follows the last dot,
/// unless there is no dot or the only dot begins the name.
pub open spec fn name_extension(name: Seq<char>) -> Option<Seq<char>> {
    let k = last_index(name, '.');
    if k <= 0 || name == ".."@ {
        None
    } else {
        Some(name.skip(k + 1))
    }
}

pub open spec fn path_extension(path: Seq<char>) -> Option<Seq<char>> {
    match file_name(path) {
        Some(name) => name_extension(name),
        None => None,
    }
}

/// What follows the last dot of a name, if it has one (`rsplit_once('.')`).
pub open spec fn after_last_dot(name: Seq<char>) -> Option<Seq<char>> {
    let k = last_index(name, '.');
    if k < 0 {
        None
    } else {
        Some(name.skip(k + 1))
    }
}

fn last_position(s: &Vec<char>, end: usize, c: char) -> (r: Option<usize>)
    requires
        end <= s.len(),
    ensures
        match r {
            Some(k) => k as int == last_index(s@.take(end as int), c) && k < end,
            None => last_index(s@.take(end as int), c) == -1,
        },
{
    let mut i = end;
    while i > 0 && s[i - 1] != c
        invariant
            i <= end <= s.len(),
            last_index(s@.take(end as int), c) == last_index(s@.take(i as int), c),
        decreases i,
    {
        assert(s@.take(i as int).drop_last() =~= s@.take(i - 1));
        i = i - 1;
    }
    if i == 0 {
        assert(s@.take(0) =~= Seq::<char>::empty());
        None
    } else {
        Some(i - 1)
    }
}

fn is_dot(s: &Vec<char>, from: usize, to: usize) -> (r: bool)
    requires
        from <= to <= s.len(),
    ensures
        r == (s@.subrange(from as int, to as int) == "."@),
{
    proof {
        reveal_strlit(".");
    }
    let r = to - from == 1 && s[from] == '.';
    proof {
        let sub = s@.subrange(from as int, to as int);
        if sub == "."@ {
            assert(sub.len() == 1);
            assert(sub[0] == '.');
        }
        if r {
            assert(sub =~= "."@);
        }
    }
    r
}

fn is_dot_dot(s: &Vec<char>, from: usize, to: usize) -> (r: bool)
    requires
        from <= to <= s.len(),
    ensures
        r == (s@.subrange(from as int, to as int) == ".."@),
{
    proof {
        reveal_strlit("..");
    }
    let r = to - from == 2 && s[from] == '.' && s[from + 1] == '.';
    proof {
        let sub = s@.subrange(from as int, to as int);
        if sub == ".."@ {
            assert(sub.len() == 2);
            assert(sub[0] == '.' && sub[1] == '.');
        }
        if r {
            assert(sub =~= ".."@);
        }
    }
    r
}

/// The final component of `path`.
pub fn path_file_name(path: &str) -> (r: Option<String>)
    ensures
        match r {
            Some(n) => file_name(path@) == Some(n@),
            None => file_name(path@) is None,
        },
{
    let s = chars_of(path);
    let mut end = s.len();
    let ghost mut cur: Seq<char> = s@;
    loop
        invariant
            end <= s.len(),
            cur == s@.take(end as int),
            file_name(path@) == file_name(cur),
            s@ == path@,
        decreases end,
    {
        // Drop trailing separators.
        let mut t = end;
        while t > 0 && s[t - 1] == '/'
            invariant
                t <= end <= s.len(),
                trailing_count(s@.take(end as int), '/') == (end - t) + trailing_count(s@.take(t as int), '/'),
            decreases t,
        {
            assert(s@.take(t as int).drop_last() =~= s@.take(t - 1));
            t = t - 1;
        }
        assert(trailing_count(s@.take(t as int), '/') == 0);
        let ghost tt = cur.take(cur.len() - trailing_count(cur, '/'));
        assert(tt =~= s@.take(t as int));
        if t == 0 {
            return None;
        }
        let k = last_position(&s, t, '/');
        let start = match k {
            Some(k) => k + 1,
            None => 0,
        };
        proof {
            lemma_last_index(tt, '/');
            assert(tt.skip(last_index(tt, '/') + 1) =~= s@.subrange(start as int, t as int));
        }
        if is_dot(&s, start, t) {
            match k {
                None => {
                    return None;
                },
                Some(k) => {
                    proof {
                        assert(tt.take(k as int) =~= s@.take(k as int));
                        cur = s@.take(k as int);
                    }
                    end = k;
                },
            }
        } else if is_dot_dot(&s, start, t) {
            return None;
        } else {
            return Some(string_from_range(&s, start, t));
        }
    }
}

/// The extension of a file name.
pub fn extension_of_name(name: &Vec<char>) -> (r: Option<Vec<char>>)
    ensures
        match r {
            Some(e) => name_extension(name@) == Some(e@),
            None => name_extension(name@) is None,
        },
{
    proof {
        reveal_strlit("..");
    }
    let is_parent = name.len() == 2 && name[0] == '.' && name[1] == '.';
    assert(is_parent <==> name@ == ".."@) by {
        if name@ == ".."@ {
            assert(name@.len() == 2);
        }
        if is_parent {
            assert(name@ =~= ".."@);
        }
    }
    match last_position(name, name.len(), '.') {
        Some(k) => {
            assert(name@.take(name.len() as int) =~= name@);
            if k == 0 || is_parent {
                None
            } else {
                Some(crate::config_text::chars_range(name, k + 1, name.len()))
            }
        },
        None => {
            assert(name@.take(name.len() as int) =~= name@);
            None
        },
    }
}

/// The lowercase extension of a path, as `Path::extension` and `to_ascii_lowercase` give it.
pub fn lowercase_path_extension(path: &str) -> (r: Option<String>)
    ensures
        match r {
            Some(e) => path_extension(path@) is Some && e@ == ascii_lower_seq(path_extension(path@)->0),
            None => path_extension(path@) is None,
        },
{
    match path_file_name(path) {
        Some(name) => {
            let chars = chars_of(name.as_str());
            match extension_of_name(&chars) {
                Some(ext) => {
                    let lowered = lower(&ext);
                    Some(string_from_chars(&lowered))
                },
                None => None,
            }
        },
        None => None,
    }
}

/// The lowercase text after the last dot of a name.
pub fn lowercase_dot_suffix(name: &str) -> (r: Option<String>)
    ensures
        match r {
            Some(e) => after_last_dot(name@) is Some && e@ == ascii_lower_seq(after_last_dot(name@)->0),
            None => after_last_dot(name@) is None,
        },
{
    let chars = chars_of(name);
    match last_position(&chars, chars.len(), '.') {
        Some(k) => {
            assert(chars@.take(chars.len() as int) =~= chars@);
            let ext = crate::config_text::chars_range(&chars, k + 1, chars.len());
            let lowered = lower(&ext);
            Some(string_from_chars(&lowered))
        },
        None => {
            assert(chars@.take(chars.len() as int) =~= chars@);
            None
        },
    }
}

fn lower(s: &Vec<char>) -> (r: Vec<char>)
    ensures
        r@ == ascii_lower_seq(s@),
{
    let mut r: Vec<char> = Vec::new();
    let mut i: usize = 0;
    while i < s.len()
        invariant
            i <= s.len(),
            r@ == ascii_lower_seq(s@.take(i as int)),
        decreases s.len() - i,
    {
        r.push(ascii_lowercase(s[i]));
        i = i + 1;
        assert(r@ =~= ascii_lower_seq(s@.take(i as int)));
    }
    assert(s@.take(s.len() as int) =~= s@);
    r
}

pub open spec fn str_views(v: Seq<&str>) -> Seq<Seq<char>> {
    v.map_values(|x: &str| x@)
}

fn listed(e: &str, list: &Vec<&str>) -> (r: bool)
    ensures
        r == str_views(list@).contains(e@),
{
    let mut i: usize = 0;
    while i < list.len()
        invariant
            i <= list.len(),
            forall|j: int| 0 <= j < i ==> (#[trigger] list@[j])@ != e@,
        decreases list.len() - i,
    {
        if str_eq(list[i], e) {
            assert(str_views(list@)[i as int] == e@);
            return true;
        }
        i = i + 1;
    }
    assert(!str_views(list@).contains(e@)) by {
        if str_views(list@).contains(e@) {
            let j = choose|j: int| 0 <= j < str_views(list@).len() && str_views(list@)[j] == e@;
            assert(list@[j]@ == e@);
        }
    }
    false
}

pub open spec fn image_extensions() -> Seq<Seq<char>> {
    seq!["png"@, "jpg"@, "jpeg"@, "gif"@, "webp"@, "bmp"@, "tif"@, "tiff"@, "svg"@]
}

pub open spec fn code_extensions() -> Seq<Seq<char>> {
    seq!["rs"@, "ts"@, "tsx"@, "js"@, "jsx"@, "svelte"@, "html"@, "css"@, "scss"@, "json"@, "toml"@, "yaml"@,
        "yml"@, "py"@, "go"@, "c"@, "h"@, "cpp"@, "hpp"@, "java"@, "kt"@, "swift"@, "sh"@]
}

pub open spec fn document_extensions() -> Seq<Seq<char>> {
    seq!["txt"@, "md"@, "pdf"@, "rtf"@, "doc"@, "docx"@, "odt"@, "pages"@]
}

pub open spec fn audio_extensions() -> Seq<Seq<char>> {
    seq!["mp3"@, "m4a"@, "aac"@, "wav"@, "flac"@, "ogg"@]
}

pub open spec fn video_extensions() -> Seq<Seq<char>> {
    seq!["mp4"@, "m4v"@, "mov"@, "mkv"@, "webm"@, "avi"@]
}

pub open spec fn archive_extensions() -> Seq<Seq<char>> {
    seq!["zip"@, "tar"@, "gz"@, "bz2"@, "xz"@, "zst"@, "7z"@, "rar"@]
}

/// The content kind of a lowercase extension in the desktop tables.
pub open spec fn kind_of_extension(ext: Option<Seq<char>>) -> Seq<char> {
    match ext {
        Some(e) => if image_extensions().contains(e) {
            "image"@
        } else if code_extensions().contains(e) {
            "code"@
        } else if document_extensions().contains(e) {
            "document"@
        } else if audio_extensions().contains(e) {
            "audio"@
        } else if video_extensions().contains(e) {
            "video"@
        } else if archive_extensions().contains(e) {
            "archive"@
        } else {
            "other"@
        },
        None => "other"@,
    }
}

pub open spec fn remote_image_extensions() -> Seq<Seq<char>> {
    seq!["jpg"@, "jpeg"@, "png"@, "gif"@, "webp"@, "bmp"@, "svg"@]
}

pub open spec fn remote_document_extensions() -> Seq<Seq<char>> {
    seq!["md"@, "txt"@, "pdf"@, "doc"@, "docx"@, "rtf"@]
}

pub open spec fn remote_code_extensions() -> Seq<Seq<char>> {
    seq!["rs"@, "ts"@, "js"@, "svelte"@, "py"@, "go"@, "json"@, "toml"@, "yaml"@, "yml"@]
}

pub open spec fn remote_audio_extensions() -> Seq<Seq<char>> {
    seq!["mp3"@, "m4a"@, "wav"@, "flac"@, "ogg"@]
}

pub open spec fn remote_video_extensions() -> Seq<Seq<char>> {
    seq!["mp4"@, "mov"@, "mkv"@, "webm"@, "avi"@]
}

pub open spec fn remote_archive_extensions() -> Seq<Seq<char>> {
    seq!["zip"@, "tar"@, "gz"@, "xz"@, "zst"@, "7z"@, "rar"@]
}

/// The content kind of a lowercase extension in the remote table.
pub open spec fn remote_kind_of_extension(ext: Option<Seq<char>>) -> Seq<char> {
    match ext {
        Some(e) => if remote_image_extensions().contains(e) {
            "image"@
        } else if remote_document_extensions().contains(e) {
            "document"@
        } else if remote_code_extensions().contains(e) {
            "code"@
        } else if remote_audio_extensions().contains(e) {
            "audio"@
        } else if remote_video_extensions().contains(e) {
            "video"@
        } else if remote_archive_extensions().contains(e) {
            "archive"@
        } else {
            "other"@
        },
        None => "other"@,
    }
}

pub open spec fn lowered(ext: Option<Seq<char>>) -> Option<Seq<char>> {
    match ext {
        Some(e) => Some(ascii_lower_seq(e)),
        None => None,
    }
}

fn view_of(o: &Option<String>) -> (r: Option<&str>)
    ensures
        match r {
            Some(x) => o is Some && x@ == o->0@,
            None => o is None,
        },
{
    match o {
        Some(s) => Some(s.as_str()),
        None => None,
    }
}

/// The desktop content kind of a lowercase extension.
pub fn kind_for_extension(ext: &Option<String>) -> (r: &'static str)
    ensures
        r@ == kind_of_extension(match ext {
            Some(e) => Some(e@),
            None => None,
        }),
{
    let e = match view_of(ext) {
        Some(e) => e,
        None => {
            return "other";
        },
    };
    let images = vec!["png", "jpg", "jpeg", "gif", "webp", "bmp", "tif", "tiff", "svg"];
    let code = vec!["rs", "ts", "tsx", "js", "jsx", "svelte", "html", "css", "scss", "json", "toml", "yaml", "yml",
        "py", "go", "c", "h", "cpp", "hpp", "java", "kt", "swift", "sh"];
    let documents = vec!["txt", "md", "pdf", "rtf", "doc", "docx", "odt", "pages"];
    let audio = vec!["mp3", "m4a", "aac", "wav", "flac", "ogg"];
    let video = vec!["mp4", "m4v", "mov", "mkv", "webm", "avi"];
    let archives = vec!["zip", "tar", "gz", "bz2", "xz", "zst", "7z", "rar"];
    assert(str_views(images@) =~= image_extensions());
    assert(str_views(code@) =~= code_extensions());
    assert(str_views(documents@) =~= document_extensions());
    assert(str_views(audio@) =~= audio_extensions());
    assert(str_views(video@) =~= video_extensions());
    assert(str_views(archives@) =~= archive_extensions());
    if listed(e, &images) {
        "image"
    } else if listed(e, &code) {
        "code"
    } else if listed(e, &documents) {
        "document"
    } else if listed(e, &audio) {
        "audio"
    } else if listed(e, &video) {
        "video"
    } else if listed(e, &archives) {
        "archive"
    } else {
        "other"
    }
}

/// The remote content kind of a lowercase extension.
pub fn remote_kind_for_extension(ext: &Option<String>) -> (r: &'static str)
    ensures
        r@ == remote_kind_of_extension(match ext {
            Some(e) => Some(e@),
            None => None,
        }),
{
    let e = match view_of(ext) {
        Some(e) => e,
        None => {
            return "other";
        },
    };
    let images = vec!["jpg", "jpeg", "png", "gif", "webp", "bmp", "svg"];
    let documents = vec!["md", "txt", "pdf", "doc", "docx", "rtf"];
    let code = vec!["rs", "ts", "js", "svelte", "py", "go", "json", "toml", "yaml", "yml"];
    let audio = vec!["mp3", "m4a", "wav", "flac", "ogg"];
    let video = vec!["mp4", "mov", "mkv", "webm", "avi"];
    let archives = vec!["zip", "tar", "gz", "xz", "zst", "7z", "rar"];
    assert(str_views(images@) =~= remote_image_extensions());
    assert(str_views(code@) =~= remote_code_extensions());
    assert(str_views(documents@) =~= remote_document_extensions());
    assert(str_views(audio@) =~= remote_audio_extensions());
    assert(str_views(video@) =~= remote_video_extensions());
    assert(str_views(archives@) =~= remote_archive_extensions());
    if listed(e, &images) {
        "image"
    } else if listed(e, &documents) {
        "document"
    } else if listed(e, &code) {
        "code"
    } else if listed(e, &audio) {
        "audio"
    } else if listed(e, &video) {
        "video"
    } else if listed(e, &archives) {
        "archive"
    } else {
        "other"
    }
}

} // verus!

verus! {

/// The extensions listed in a desktop table are exactly its entries.
proof fn lemma_table_members(x: Seq<char>)
    ensures
        image_extensions().contains(x) ==> (x == "png"@ || x == "jpg"@ || x == "jpeg"@ || x == "gif"@ || x == "webp"@ || x == "bmp"@ || x == "tif"@ || x == "tiff"@ || x == "svg"@),
        code_extensions().contains(x) ==> (x == "rs"@ || x == "ts"@ || x == "tsx"@ || x == "js"@ || x == "jsx"@ || x == "svelte"@ || x == "html"@ || x == "css"@ || x == "scss"@ || x == "json"@ || x == "toml"@ || x == "yaml"@ || x == "yml"@ || x == "py"@ || x == "go"@ || x == "c"@ || x == "h"@ || x == "cpp"@ || x == "hpp"@ || x == "java"@ || x == "kt"@ || x == "swift"@ || x == "sh"@),
        document_extensions().contains(x) ==> (x == "txt"@ || x == "md"@ || x == "pdf"@ || x == "rtf"@ || x == "doc"@ || x == "docx"@ || x == "odt"@ || x == "pages"@),
        audio_extensions().contains(x) ==> (x == "mp3"@ || x == "m4a"@ || x == "aac"@ || x == "wav"@ || x == "flac"@ || x == "ogg"@),
        video_extensions().contains(x) ==> (x == "mp4"@ || x == "m4v"@ || x == "mov"@ || x == "mkv"@ || x == "webm"@ || x == "avi"@),
        archive_extensions().contains(x) ==> (x == "zip"@ || x == "tar"@ || x == "gz"@ || x == "bz2"@ || x == "xz"@ || x == "zst"@ || x == "7z"@ || x == "rar"@),
{
}

/// No extension is in two of the desktop tables.
proof fn lemma_tables_disjoint(x: Seq<char>)
    ensures
        code_extensions().contains(x) ==> !image_extensions().contains(x),
        document_extensions().contains(x) ==> !image_extensions().contains(x) && !code_extensions().contains(x),
        audio_extensions().contains(x) ==> !image_extensions().contains(x) && !code_extensions().contains(x) && !document_extensions().contains(x),
        video_extensions().contains(x) ==> !image_extensions().contains(x) && !code_extensions().contains(x) && !document_extensions().contains(x) && !audio_extensions().contains(x),
        archive_extensions().contains(x) ==> !image_extensions().contains(x) && !code_extensions().contains(x) && !document_extensions().contains(x) && !audio_extensions().contains(x) && !video_extensions().contains(x),
{
    lemma_table_members(x);
    if x == "rs"@ {
        reveal_strlit("rs");
        reveal_strlit("png");
        reveal_strlit("jpg");
        reveal_strlit("jpeg");
        reveal_strlit("gif");
        reveal_strlit("webp");
        reveal_strlit("bmp");
        reveal_strlit("tif");
        reveal_strlit("tiff");
        reveal_strlit("svg");
        assert(x.len() == 2);
        assert(x[0] == 'r');
        assert(x[1] == 's');
        assert(!(x == "png"@ || x == "jpg"@ || x == "jpeg"@ || x == "gif"@ || x == "webp"@ || x == "bmp"@ || x == "tif"@ || x == "tiff"@ || x == "svg"@));
    }
    if x == "ts"@ {
        reveal_strlit("ts");
        reveal_strlit("png");
        reveal_strlit("jpg");
        reveal_strlit("jpeg");
        reveal_strlit("gif");
        reveal_strlit("webp");
        reveal_strlit("bmp");
        reveal_strlit("tif");
        reveal_strlit("tiff");
        reveal_strlit("svg");
        assert(x.len() == 2);
        assert(x[0] == 't');
        assert(x[1] == 's');
        assert(!(x == "png"@ || x == "jpg"@ || x == "jpeg"@ || x == "gif"@ || x == "webp"@ || x == "bmp"@ || x == "tif"@ || x == "tiff"@ || x == "svg"@));
    }
    if x == "tsx"@ {
        reveal_strlit("tsx");
        reveal_strlit("png");
        reveal_strlit("jpg");
        reveal_strlit("jpeg");
        reveal_strlit("gif");
        reveal_strlit("webp");
        reveal_strlit("bmp");
        reveal_strlit("tif");
        reveal_strlit("tiff");
        reveal_strlit("svg");
        assert(x.len() == 3);
        assert(x[0] == 't');
        assert(x[1] == 's');
        assert(x[2] == 'x');
        assert(!(x == "png"@ || x == "jpg"@ || x == "jpeg"@ || x == "gif"@ || x == "webp"@ || x == "bmp"@ || x == "tif"@ || x == "tiff"@ || x == "svg"@));
    }
    if x == "js"@ {
        reveal_strlit("js");
        reveal_strlit("png");
        reveal_strlit("jpg");
        reveal_strlit("jpeg");
        reveal_strlit("gif");
        reveal_strlit("webp");
        reveal_strlit("bmp");
        reveal_strlit("tif");
        reveal_strlit("tiff");
        reveal_strlit("svg");
        assert(x.len() == 2);
        assert(x[0] == 'j');
        assert(x[1] == 's');
        assert(!(x == "png"@ || x == "jpg"@ || x == "jpeg"@ || x == "gif"@ || x == "webp"@ || x == "bmp"@ || x == "tif"@ || x == "tiff"@ || x == "svg"@));
    }
    if x == "jsx"@ {
        reveal_strlit("jsx");
        reveal_strlit("png");
        reveal_strlit("jpg");
        reveal_strlit("jpeg");
        reveal_strlit("gif");
        reveal_strlit("webp");
        reveal_strlit("bmp");
        reveal_strlit("tif");
        reveal_strlit("tiff");
        reveal_strlit("svg");
        assert(x.len() == 3);
        assert(x[0] == 'j');
        assert(x[1] == 's');
        assert(x[2] == 'x');
        assert(!(x == "png"@ || x == "jpg"@ || x == "jpeg"@ || x == "gif"@ || x == "webp"@ || x == "bmp"@ || x == "tif"@ || x == "tiff"@ || x == "svg"@));
    }
    if x == "svelte"@ {
        reveal_strlit("svelte");
        reveal_strlit("png");
        reveal_strlit("jpg");
        reveal_strlit("jpeg");
        reveal_strlit("gif");
        reveal_strlit("webp");
        reveal_strlit("bmp");
        reveal_strlit("tif");
        reveal_strlit("tiff");
        reveal_strlit("svg");
        assert(x.len() == 6);
        assert(x[0] == 's');
        assert(x[1] == 'v');
        assert(x[2] == 'e');
        assert(x[3] == 'l');
        assert(x[4] == 't');
        assert(x[5] == 'e');
        assert(!(x == "png"@ || x == "jpg"@ || x == "jpeg"@ || x == "gif"@ || x == "webp"@ || x == "bmp"@ || x == "tif"@ || x == "tiff"@ || x == "svg"@));
    }
    if x == "html"@ {
        reveal_strlit("html");
        reveal_strlit("png");
        reveal_strlit("jpg");
        reveal_strlit("jpeg");
        reveal_strlit("gif");
        reveal_strlit("webp");
        reveal_strlit("bmp");
        reveal_strlit("tif");
        reveal_strlit("tiff");
        reveal_strlit("svg");
        assert(x.len() == 4);
        assert(x[0] == 'h');
        assert(x[1] == 't');
        assert(x[2] == 'm');
        assert(x[3] == 'l');
        assert(!(x == "png"@ || x == "jpg"@ || x == "jpeg"@ || x == "gif"@ || x == "webp"@ || x == "bmp"@ || x == "tif"@ || x == "tiff"@ || x == "svg"@));
    }
    if x == "css"@ {
        reveal_strlit("css");
        reveal_strlit("png");
        reveal_strlit("jpg");
        reveal_strlit("jpeg");
        reveal_strlit("gif");
        reveal_strlit("webp");
        reveal_strlit("bmp");
        reveal_strlit("tif");
        reveal_strlit("tiff");
        reveal_strlit("svg");
        assert(x.len() == 3);
        assert(x[0] == 'c');
        assert(x[1] == 's');
        assert(x[2] == 's');
        assert(!(x == "png"@ || x == "jpg"@ || x == "jpeg"@ || x == "gif"@ || x == "webp"@ || x == "bmp"@ || x == "tif"@ || x == "tiff"@ || x == "svg"@));
    }
    if x == "scss"@ {
        reveal_strlit("scss");
        reveal_strlit("png");
        reveal_strlit("jpg");
        reveal_strlit("jpeg");
        reveal_strlit("gif");
        reveal_strlit("webp");
        reveal_strlit("bmp");
        reveal_strlit("tif");
        reveal_strlit("tiff");
        reveal_strlit("svg");
        assert(x.len() == 4);
        assert(x[0] == 's');
        assert(x[1] == 'c');
        assert(x[2] == 's');
        assert(x[3] == 's');
        assert(!(x == "png"@ || x == "jpg"@ || x == "jpeg"@ || x == "gif"@ || x == "webp"@ || x == "bmp"@ || x == "tif"@ || x == "tiff"@ || x == "svg"@));
    }
    if x == "json"@ {
        reveal_strlit("json");
        reveal_strlit("png");
        reveal_strlit("jpg");
        reveal_strlit("jpeg");
        reveal_strlit("gif");
        reveal_strlit("webp");
        reveal_strlit("bmp");
        reveal_strlit("tif");
        reveal_strlit("tiff");
        reveal_strlit("svg");
        assert(x.len() == 4);
        assert(x[0] == 'j');
        assert(x[1] == 's');
        assert(x[2] == 'o');
        assert(x[3] == 'n');
        assert(!(x == "png"@ || x == "jpg"@ || x == "jpeg"@ || x == "gif"@ || x == "webp"@ || x == "bmp"@ || x == "tif"@ || x == "tiff"@ || x == "svg"@));
    }
    if x == "toml"@ {
        reveal_strlit("toml");
        reveal_strlit("png");
        reveal_strlit("jpg");
        reveal_strlit("jpeg");
        reveal_strlit("gif");
        reveal_strlit("webp");
        reveal_strlit("bmp");
        reveal_strlit("tif");
        reveal_strlit("tiff");
        reveal_strlit("svg");
        assert(x.len() == 4);
        assert(x[0] == 't');
        assert(x[1] == 'o');
        assert(x[2] == 'm');
        assert(x[3] == 'l');
        assert(!(x == "png"@ || x == "jpg"@ || x == "jpeg"@ || x == "gif"@ || x == "webp"@ || x == "bmp"@ || x == "tif"@ || x == "tiff"@ || x == "svg"@));
    }
    if x == "yaml"@ {
        reveal_strlit("yaml");
        reveal_strlit("png");
        reveal_strlit("jpg");
        reveal_strlit("jpeg");
        reveal_strlit("gif");
        reveal_strlit("webp");
        reveal_strlit("bmp");
        reveal_strlit("tif");
        reveal_strlit("tiff");
        reveal_strlit("svg");
        assert(x.len() == 4);
        assert(x[0] == 'y');
        assert(x[1] == 'a');
        assert(x[2] == 'm');
        assert(x[3] == 'l');
        assert(!(x == "png"@ || x == "jpg"@ || x == "jpeg"@ || x == "gif"@ || x == "webp"@ || x == "bmp"@ || x == "tif"@ || x == "tiff"@ || x == "svg"@));
    }
    if x == "yml"@ {
        reveal_strlit("yml");
        reveal_strlit("png");
        reveal_strlit("jpg");
        reveal_strlit("jpeg");
        reveal_strlit("gif");
        reveal_strlit("webp");
        reveal_strlit("bmp");
        reveal_strlit("tif");
        reveal_strlit("tiff");
        reveal_strlit("svg");
        assert(x.len() == 3);
        assert(x[0] == 'y');
        assert(x[1] == 'm');
        assert(x[2] == 'l');
        assert(!(x == "png"@ || x == "jpg"@ || x == "jpeg"@ || x == "gif"@ || x == "webp"@ || x == "bmp"@ || x == "tif"@ || x == "tiff"@ || x == "svg"@));
    }
    if x == "py"@ {
        reveal_strlit("py");
        reveal_strlit("png");
        reveal_strlit("jpg");
        reveal_strlit("jpeg");
        reveal_strlit("gif");
        reveal_strlit("webp");
        reveal_strlit("bmp");
        reveal_strlit("tif");
        reveal_strlit("tiff");
        reveal_strlit("svg");
        assert(x.len() == 2);
        assert(x[0] == 'p');
        assert(x[1] == 'y');
        assert(!(x == "png"@ || x == "jpg"@ || x == "jpeg"@ || x == "gif"@ || x == "webp"@ || x == "bmp"@ || x == "tif"@ || x == "tiff"@ || x == "svg"@));
    }
    if x == "go"@ {
        reveal_strlit("go");
        reveal_strlit("png");
        reveal_strlit("jpg");
        reveal_strlit("jpeg");
        reveal_strlit("gif");
        reveal_strlit("webp");
        reveal_strlit("bmp");
        reveal_strlit("tif");
        reveal_strlit("tiff");
        reveal_strlit("svg");
        assert(x.len() == 2);
        assert(x[0] == 'g');
        assert(x[1] == 'o');
        assert(!(x == "png"@ || x == "jpg"@ || x == "jpeg"@ || x == "gif"@ || x == "webp"@ || x == "bmp"@ || x == "tif"@ || x == "tiff"@ || x == "svg"@));
    }
    if x == "c"@ {
        reveal_strlit("c");
        reveal_strlit("png");
        reveal_strlit("jpg");
        reveal_strlit("jpeg");
        reveal_strlit("gif");
        reveal_strlit("webp");
        reveal_strlit("bmp");
        reveal_strlit("tif");
        reveal_strlit("tiff");
        reveal_strlit("svg");
        assert(x.len() == 1);
        assert(x[0] == 'c');
        assert(!(x == "png"@ || x == "jpg"@ || x == "jpeg"@ || x == "gif"@ || x == "webp"@ || x == "bmp"@ || x == "tif"@ || x == "tiff"@ || x == "svg"@));
    }
    if x == "h"@ {
        reveal_strlit("h");
        reveal_strlit("png");
        reveal_strlit("jpg");
        reveal_strlit("jpeg");
        reveal_strlit("gif");
        reveal_strlit("webp");
        reveal_strlit("bmp");
        reveal_strlit("tif");
        reveal_strlit("tiff");
        reveal_strlit("svg");
        assert(x.len() == 1);
        assert(x[0] == 'h');
        assert(!(x == "png"@ || x == "jpg"@ || x == "jpeg"@ || x == "gif"@ || x == "webp"@ || x == "bmp"@ || x == "tif"@ || x == "tiff"@ || x == "svg"@));
    }
    if x == "cpp"@ {
        reveal_strlit("cpp");
        reveal_strlit("png");
        reveal_strlit("jpg");
        reveal_strlit("jpeg");
        reveal_strlit("gif");
        reveal_strlit("webp");
        reveal_strlit("bmp");
        reveal_strlit("tif");
        reveal_strlit("tiff");
        reveal_strlit("svg");
        assert(x.len() == 3);
        assert(x[0] == 'c');
        assert(x[1] == 'p');
        assert(x[2] == 'p');
        assert(!(x == "png"@ || x == "jpg"@ || x == "jpeg"@ || x == "gif"@ || x == "webp"@ || x == "bmp"@ || x == "tif"@ || x == "tiff"@ || x == "svg"@));
    }
    if x == "hpp"@ {
        reveal_strlit("hpp");
        reveal_strlit("png");
        reveal_strlit("jpg");
        reveal_strlit("jpeg");
        reveal_strlit("gif");
        reveal_strlit("webp");
        reveal_strlit("bmp");
        reveal_strlit("tif");
        reveal_strlit("tiff");
        reveal_strlit("svg");
        assert(x.len() == 3);
        assert(x[0] == 'h');
        assert(x[1] == 'p');
        assert(x[2] == 'p');
        assert(!(x == "png"@ || x == "jpg"@ || x == "jpeg"@ || x == "gif"@ || x == "webp"@ || x == "bmp"@ || x == "tif"@ || x == "tiff"@ || x == "svg"@));
    }
    if x == "java"@ {
        reveal_strlit("java");
        reveal_strlit("png");
        reveal_strlit("jpg");
        reveal_strlit("jpeg");
        reveal_strlit("gif");
        reveal_strlit("webp");
        reveal_strlit("bmp");
        reveal_strlit("tif");
        reveal_strlit("tiff");
        reveal_strlit("svg");
        assert(x.len() == 4);
        assert(x[0] == 'j');
        assert(x[1] == 'a');
        assert(x[2] == 'v');
        assert(x[3] == 'a');
        assert(!(x == "png"@ || x == "jpg"@ || x == "jpeg"@ || x == "gif"@ || x == "webp"@ || x == "bmp"@ || x == "tif"@ || x == "tiff"@ || x == "svg"@));
    }
    if x == "kt"@ {
        reveal_strlit("kt");
        reveal_strlit("png");
        reveal_strlit("jpg");
        reveal_strlit("jpeg");
        reveal_strlit("gif");
        reveal_strlit("webp");
        reveal_strlit("bmp");
        reveal_strlit("tif");
        reveal_strlit("tiff");
        reveal_strlit("svg");
        assert(x.len() == 2);
        assert(x[0] == 'k');
        assert(x[1] == 't');
        assert(!(x == "png"@ || x == "jpg"@ || x == "jpeg"@ || x == "gif"@ || x == "webp"@ || x == "bmp"@ || x == "tif"@ || x == "tiff"@ || x == "svg"@));
    }
    if x == "swift"@ {
        reveal_strlit("swift");
        reveal_strlit("png");
        reveal_strlit("jpg");
        reveal_strlit("jpeg");
        reveal_strlit("gif");
        reveal_strlit("webp");
        reveal_strlit("bmp");
        reveal_strlit("tif");
        reveal_strlit("tiff");
        reveal_strlit("svg");
        assert(x.len() == 5);
        assert(x[0] == 's');
        assert(x[1] == 'w');
        assert(x[2] == 'i');
        assert(x[3] == 'f');
        assert(x[4] == 't');
        assert(!(x == "png"@ || x == "jpg"@ || x == "jpeg"@ || x == "gif"@ || x == "webp"@ || x == "bmp"@ || x == "tif"@ || x == "tiff"@ || x == "svg"@));
    }
    if x == "sh"@ {
        reveal_strlit("sh");
        reveal_strlit("png");
        reveal_strlit("jpg");
        reveal_strlit("jpeg");
        reveal_strlit("gif");
        reveal_strlit("webp");
        reveal_strlit("bmp");
        reveal_strlit("tif");
        reveal_strlit("tiff");
        reveal_strlit("svg");
        assert(x.len() == 2);
        assert(x[0] == 's');
        assert(x[1] == 'h');
        assert(!(x == "png"@ || x == "jpg"@ || x == "jpeg"@ || x == "gif"@ || x == "webp"@ || x == "bmp"@ || x == "tif"@ || x == "tiff"@ || x == "svg"@));
    }
    if x == "txt"@ {
        reveal_strlit("txt");
        reveal_strlit("png");
        reveal_strlit("jpg");
        reveal_strlit("jpeg");
        reveal_strlit("gif");
        reveal_strlit("webp");
        reveal_strlit("bmp");
        reveal_strlit("tif");
        reveal_strlit("tiff");
        reveal_strlit("svg");
        reveal_strlit("rs");
        reveal_strlit("ts");
        reveal_strlit("tsx");
        reveal_strlit("js");
        reveal_strlit("jsx");
        reveal_strlit("svelte");
        reveal_strlit("html");
        reveal_strlit("css");
        reveal_strlit("scss");
        reveal_strlit("json");
        reveal_strlit("toml");
        reveal_strlit("yaml");
        reveal_strlit("yml");
        reveal_strlit("py");
        reveal_strlit("go");
        reveal_strlit("c");
        reveal_strlit("h");
        reveal_strlit("cpp");
        reveal_strlit("hpp");
        reveal_strlit("java");
        reveal_strlit("kt");
        reveal_strlit("swift");
        reveal_strlit("sh");
        assert(x.len() == 3);
        assert(x[0] == 't');
        assert(x[1] == 'x');
        assert(x[2] == 't');
        assert(!(x == "png"@ || x == "jpg"@ || x == "jpeg"@ || x == "gif"@ || x == "webp"@ || x == "bmp"@ || x == "tif"@ || x == "tiff"@ || x == "svg"@ || x == "rs"@ || x == "ts"@ || x == "tsx"@ || x == "js"@ || x == "jsx"@ || x == "svelte"@ || x == "html"@ || x == "css"@ || x == "scss"@ || x == "json"@ || x == "toml"@ || x == "yaml"@ || x == "yml"@ || x == "py"@ || x == "go"@ || x == "c"@ || x == "h"@ || x == "cpp"@ || x == "hpp"@ || x == "java"@ || x == "kt"@ || x == "swift"@ || x == "sh"@));
    }
    if x == "md"@ {
        reveal_strlit("md");
        reveal_strlit("png");
        reveal_strlit("jpg");
        reveal_strlit("jpeg");
        reveal_strlit("gif");
        reveal_strlit("webp");
        reveal_strlit("bmp");
        reveal_strlit("tif");
        reveal_strlit("tiff");
        reveal_strlit("svg");
        reveal_strlit("rs");
        reveal_strlit("ts");
        reveal_strlit("tsx");
        reveal_strlit("js");
        reveal_strlit("jsx");
        reveal_strlit("svelte");
        reveal_strlit("html");
        reveal_strlit("css");
        reveal_strlit("scss");
        reveal_strlit("json");
        reveal_strlit("toml");
        reveal_strlit("yaml");
        reveal_strlit("yml");
        reveal_strlit("py");
        reveal_strlit("go");
        reveal_strlit("c");
        reveal_strlit("h");
        reveal_strlit("cpp");
        reveal_strlit("hpp");
        reveal_strlit("java");
        reveal_strlit("kt");
        reveal_strlit("swift");
        reveal_strlit("sh");
        assert(x.len() == 2);
        assert(x[0] == 'm');
        assert(x[1] == 'd');
        assert(!(x == "png"@ || x == "jpg"@ || x == "jpeg"@ || x == "gif"@ || x == "webp"@ || x == "bmp"@ || x == "tif"@ || x == "tiff"@ || x == "svg"@ || x == "rs"@ || x == "ts"@ || x == "tsx"@ || x == "js"@ || x == "jsx"@ || x == "svelte"@ || x == "html"@ || x == "css"@ || x == "scss"@ || x == "json"@ || x == "toml"@ || x == "yaml"@ || x == "yml"@ || x == "py"@ || x == "go"@ || x == "c"@ || x == "h"@ || x == "cpp"@ || x == "hpp"@ || x == "java"@ || x == "kt"@ || x == "swift"@ || x == "sh"@));
    }
    if x == "pdf"@ {
        reveal_strlit("pdf");
        reveal_strlit("png");
        reveal_strlit("jpg");
        reveal_strlit("jpeg");
        reveal_strlit("gif");
        reveal_strlit("webp");
        reveal_strlit("bmp");
        reveal_strlit("tif");
        reveal_strlit("tiff");
        reveal_strlit("svg");
        reveal_strlit("rs");
        reveal_strlit("ts");
        reveal_strlit("tsx");
        reveal_strlit("js");
        reveal_strlit("jsx");
        reveal_strlit("svelte");
        reveal_strlit("html");
        reveal_strlit("css");
        reveal_strlit("scss");
        reveal_strlit("json");
        reveal_strlit("toml");
        reveal_strlit("yaml");
        reveal_strlit("yml");
        reveal_strlit("py");
        reveal_strlit("go");
        reveal_strlit("c");
        reveal_strlit("h");
        reveal_strlit("cpp");
        reveal_strlit("hpp");
        reveal_strlit("java");
        reveal_strlit("kt");
        reveal_strlit("swift");
        reveal_strlit("sh");
        assert(x.len() == 3);
        assert(x[0] == 'p');
        assert(x[1] == 'd');
        assert(x[2] == 'f');
        assert(!(x == "png"@ || x == "jpg"@ || x == "jpeg"@ || x == "gif"@ || x == "webp"@ || x == "bmp"@ || x == "tif"@ || x == "tiff"@ || x == "svg"@ || x == "rs"@ || x == "ts"@ || x == "tsx"@ || x == "js"@ || x == "jsx"@ || x == "svelte"@ || x == "html"@ || x == "css"@ || x == "scss"@ || x == "json"@ || x == "toml"@ || x == "yaml"@ || x == "yml"@ || x == "py"@ || x == "go"@ || x == "c"@ || x == "h"@ || x == "cpp"@ || x == "hpp"@ || x == "java"@ || x == "kt"@ || x == "swift"@ || x == "sh"@));
    }
    if x == "rtf"@ {
        reveal_strlit("rtf");
        reveal_strlit("png");
        reveal_strlit("jpg");
        reveal_strlit("jpeg");
        reveal_strlit("gif");
        reveal_strlit("webp");
        reveal_strlit("bmp");
        reveal_strlit("tif");
        reveal_strlit("tiff");
        reveal_strlit("svg");
        reveal_strlit("rs");
        reveal_strlit("ts");
        reveal_strlit("tsx");
        reveal_strlit("js");
        reveal_strlit("jsx");
        reveal_strlit("svelte");
        reveal_strlit("html");
        reveal_strlit("css");
        reveal_strlit("scss");
        reveal_strlit("json");
        reveal_strlit("toml");
        reveal_strlit("yaml");
        reveal_strlit("yml");
        reveal_strlit("py");
        reveal_strlit("go");
        reveal_strlit("c");
        reveal_strlit("h");
        reveal_strlit("cpp");
        reveal_strlit("hpp");
        reveal_strlit("java");
        reveal_strlit("kt");
        reveal_strlit("swift");
        reveal_strlit("sh");
        assert(x.len() == 3);
        assert(x[0] == 'r');
        assert(x[1] == 't');
        assert(x[2] == 'f');
        assert(!(x == "png"@ || x == "jpg"@ || x == "jpeg"@ || x == "gif"@ || x == "webp"@ || x == "bmp"@ || x == "tif"@ || x == "tiff"@ || x == "svg"@ || x == "rs"@ || x == "ts"@ || x == "tsx"@ || x == "js"@ || x == "jsx"@ || x == "svelte"@ || x == "html"@ || x == "css"@ || x == "scss"@ || x == "json"@ || x == "toml"@ || x == "yaml"@ || x == "yml"@ || x == "py"@ || x == "go"@ || x == "c"@ || x == "h"@ || x == "cpp"@ || x == "hpp"@ || x == "java"@ || x == "kt"@ || x == "swift"@ || x == "sh"@));
    }
    if x == "doc"@ {
        reveal_strlit("doc");
        reveal_strlit("png");
        reveal_strlit("jpg");
        reveal_strlit("jpeg");
        reveal_strlit("gif");
        reveal_strlit("webp");
        reveal_strlit("bmp");
        reveal_strlit("tif");
        reveal_strlit("tiff");
        reveal_strlit("svg");
        reveal_strlit("rs");
        reveal_strlit("ts");
        reveal_strlit("tsx");
        reveal_strlit("js");
        reveal_strlit("jsx");
        reveal_strlit("svelte");
        reveal_strlit("html");
        reveal_strlit("css");
        reveal_strlit("scss");
        reveal_strlit("json");
        reveal_strlit("toml");
        reveal_strlit("yaml");
        reveal_strlit("yml");
        reveal_strlit("py");
        reveal_strlit("go");
        reveal_strlit("c");
        reveal_strlit("h");
        reveal_strlit("cpp");
        reveal_strlit("hpp");
        reveal_strlit("java");
        reveal_strlit("kt");
        reveal_strlit("swift");
        reveal_strlit("sh");
        assert(x.len() == 3);
        assert(x[0] == 'd');
        assert(x[1] == 'o');
        assert(x[2] == 'c');
        assert(!(x == "png"@ || x == "jpg"@ || x == "jpeg"@ || x == "gif"@ || x == "webp"@ || x == "bmp"@ || x == "tif"@ || x == "tiff"@ || x == "svg"@ || x == "rs"@ || x == "ts"@ || x == "tsx"@ || x == "js"@ || x == "jsx"@ || x == "svelte"@ || x == "html"@ || x == "css"@ || x == "scss"@ || x == "json"@ || x == "toml"@ || x == "yaml"@ || x == "yml"@ || x == "py"@ || x == "go"@ || x == "c"@ || x == "h"@ || x == "cpp"@ || x == "hpp"@ || x == "java"@ || x == "kt"@ || x == "swift"@ || x == "sh"@));
    }
    if x == "docx"@ {
        reveal_strlit("docx");
        reveal_strlit("png");
        reveal_strlit("jpg");
        reveal_strlit("jpeg");
        reveal_strlit("gif");
        reveal_strlit("webp");
        reveal_strlit("bmp");
        reveal_strlit("tif");
        reveal_strlit("tiff");
        reveal_strlit("svg");
        reveal_strlit("rs");
        reveal_strlit("ts");
        reveal_strlit("tsx");
        reveal_strlit("js");
        reveal_strlit("jsx");
        reveal_strlit("svelte");
        reveal_strlit("html");
        reveal_strlit("css");
        reveal_strlit("scss");
        reveal_strlit("json");
        reveal_strlit("toml");
        reveal_strlit("yaml");
        reveal_strlit("yml");
        reveal_strlit("py");
        reveal_strlit("go");
        reveal_strlit("c");
        reveal_strlit("h");
        reveal_strlit("cpp");
        reveal_strlit("hpp");
        reveal_strlit("java");
        reveal_strlit("kt");
        reveal_strlit("swift");
        reveal_strlit("sh");
        assert(x.len() == 4);
        assert(x[0] == 'd');
        assert(x[1] == 'o');
        assert(x[2] == 'c');
        assert(x[3] == 'x');
        assert(!(x == "png"@ || x == "jpg"@ || x == "jpeg"@ || x == "gif"@ || x == "webp"@ || x == "bmp"@ || x == "tif"@ || x == "tiff"@ || x == "svg"@ || x == "rs"@ || x == "ts"@ || x == "tsx"@ || x == "js"@ || x == "jsx"@ || x == "svelte"@ || x == "html"@ || x == "css"@ || x == "scss"@ || x == "json"@ || x == "toml"@ || x == "yaml"@ || x == "yml"@ || x == "py"@ || x == "go"@ || x == "c"@ || x == "h"@ || x == "cpp"@ || x == "hpp"@ || x == "java"@ || x == "kt"@ || x == "swift"@ || x == "sh"@));
    }
    if x == "odt"@ {
        reveal_strlit("odt");
        reveal_strlit("png");
        reveal_strlit("jpg");
        reveal_strlit("jpeg");
        reveal_strlit("gif");
        reveal_strlit("webp");
        reveal_strlit("bmp");
        reveal_strlit("tif");
        reveal_strlit("tiff");
        reveal_strlit("svg");
        reveal_strlit("rs");
        reveal_strlit("ts");
        reveal_strlit("tsx");
        reveal_strlit("js");
        reveal_strlit("jsx");
        reveal_strlit("svelte");
        reveal_strlit("html");
        reveal_strlit("css");
        reveal_strlit("scss");
        reveal_strlit("json");
        reveal_strlit("toml");
        reveal_strlit("yaml");
        reveal_strlit("yml");
        reveal_strlit("py");
        reveal_strlit("go");
        reveal_strlit("c");
        reveal_strlit("h");
        reveal_strlit("cpp");
        reveal_strlit("hpp");
        reveal_strlit("java");
        reveal_strlit("kt");
        reveal_strlit("swift");
        reveal_strlit("sh");
        assert(x.len() == 3);
        assert(x[0] == 'o');
        assert(x[1] == 'd');
        assert(x[2] == 't');
        assert(!(x == "png"@ || x == "jpg"@ || x == "jpeg"@ || x == "gif"@ || x == "webp"@ || x == "bmp"@ || x == "tif"@ || x == "tiff"@ || x == "svg"@ || x == "rs"@ || x == "ts"@ || x == "tsx"@ || x == "js"@ || x == "jsx"@ || x == "svelte"@ || x == "html"@ || x == "css"@ || x == "scss"@ || x == "json"@ || x == "toml"@ || x == "yaml"@ || x == "yml"@ || x == "py"@ || x == "go"@ || x == "c"@ || x == "h"@ || x == "cpp"@ || x == "hpp"@ || x == "java"@ || x == "kt"@ || x == "swift"@ || x == "sh"@));
    }
    if x == "pages"@ {
        reveal_strlit("pages");
        reveal_strlit("png");
        reveal_strlit("jpg");
        reveal_strlit("jpeg");
        reveal_strlit("gif");
        reveal_strlit("webp");
        reveal_strlit("bmp");
        reveal_strlit("tif");
        reveal_strlit("tiff");
        reveal_strlit("svg");
        reveal_strlit("rs");
        reveal_strlit("ts");
        reveal_strlit("tsx");
        reveal_strlit("js");
        reveal_strlit("jsx");
        reveal_strlit("svelte");
        reveal_strlit("html");
        reveal_strlit("css");
        reveal_strlit("scss");
        reveal_strlit("json");
        reveal_strlit("toml");
        reveal_strlit("yaml");
        reveal_strlit("yml");
        reveal_strlit("py");
        reveal_strlit("go");
        reveal_strlit("c");
        reveal_strlit("h");
        reveal_strlit("cpp");
        reveal_strlit("hpp");
        reveal_strlit("java");
        reveal_strlit("kt");
        reveal_strlit("swift");
        reveal_strlit("sh");
        assert(x.len() == 5);
        assert(x[0] == 'p');
        assert(x[1] == 'a');
        assert(x[2] == 'g');
        assert(x[3] == 'e');
        assert(x[4] == 's');
        assert(!(x == "png"@ || x == "jpg"@ || x == "jpeg"@ || x == "gif"@ || x == "webp"@ || x == "bmp"@ || x == "tif"@ || x == "tiff"@ || x == "svg"@ || x == "rs"@ || x == "ts"@ || x == "tsx"@ || x == "js"@ || x == "jsx"@ || x == "svelte"@ || x == "html"@ || x == "css"@ || x == "scss"@ || x == "json"@ || x == "toml"@ || x == "yaml"@ || x == "yml"@ || x == "py"@ || x == "go"@ || x == "c"@ || x == "h"@ || x == "cpp"@ || x == "hpp"@ || x == "java"@ || x == "kt"@ || x == "swift"@ || x == "sh"@));
    }
    if x == "mp3"@ {
        reveal_strlit("mp3");
        reveal_strlit("png");
        reveal_strlit("jpg");
        reveal_strlit("jpeg");
        reveal_strlit("gif");
        reveal_strlit("webp");
        reveal_strlit("bmp");
        reveal_strlit("tif");
        reveal_strlit("tiff");
        reveal_strlit("svg");
        reveal_strlit("rs");
        reveal_strlit("ts");
        reveal_strlit("tsx");
        reveal_strlit("js");
        reveal_strlit("jsx");
        reveal_strlit("svelte");
        reveal_strlit("html");
        reveal_strlit("css");
        reveal_strlit("scss");
        reveal_strlit("json");
        reveal_strlit("toml");
        reveal_strlit("yaml");
        reveal_strlit("yml");
        reveal_strlit("py");
        reveal_strlit("go");
        reveal_strlit("c");
        reveal_strlit("h");
        reveal_strlit("cpp");
        reveal_strlit("hpp");
        reveal_strlit("java");
        reveal_strlit("kt");
        reveal_strlit("swift");
        reveal_strlit("sh");
        reveal_strlit("txt");
        reveal_strlit("md");
        reveal_strlit("pdf");
        reveal_strlit("rtf");
        reveal_strlit("doc");
        reveal_strlit("docx");
        reveal_strlit("odt");
        reveal_strlit("pages");
        assert(x.len() == 3);
        assert(x[0] == 'm');
        assert(x[1] == 'p');
        assert(x[2] == '3');
        assert(!(x == "png"@ || x == "jpg"@ || x == "jpeg"@ || x == "gif"@ || x == "webp"@ || x == "bmp"@ || x == "tif"@ || x == "tiff"@ || x == "svg"@ || x == "rs"@ || x == "ts"@ || x == "tsx"@ || x == "js"@ || x == "jsx"@ || x == "svelte"@ || x == "html"@ || x == "css"@ || x == "scss"@ || x == "json"@ || x == "toml"@ || x == "yaml"@ || x == "yml"@ || x == "py"@ || x == "go"@ || x == "c"@ || x == "h"@ || x == "cpp"@ || x == "hpp"@ || x == "java"@ || x == "kt"@ || x == "swift"@ || x == "sh"@ || x == "txt"@ || x == "md"@ || x == "pdf"@ || x == "rtf"@ || x == "doc"@ || x == "docx"@ || x == "odt"@ || x == "pages"@));
    }
    if x == "m4a"@ {
        reveal_strlit("m4a");
        reveal_strlit("png");
        reveal_strlit("jpg");
        reveal_strlit("jpeg");
        reveal_strlit("gif");
        reveal_strlit("webp");
        reveal_strlit("bmp");
        reveal_strlit("tif");
        reveal_strlit("tiff");
        reveal_strlit("svg");
        reveal_strlit("rs");
        reveal_strlit("ts");
        reveal_strlit("tsx");
        reveal_strlit("js");
        reveal_strlit("jsx");
        reveal_strlit("svelte");
        reveal_strlit("html");
        reveal_strlit("css");
        reveal_strlit("scss");
        reveal_strlit("json");
        reveal_strlit("toml");
        reveal_strlit("yaml");
        reveal_strlit("yml");
        reveal_strlit("py");
        reveal_strlit("go");
        reveal_strlit("c");
        reveal_strlit("h");
        reveal_strlit("cpp");
        reveal_strlit("hpp");
        reveal_strlit("java");
        reveal_strlit("kt");
        reveal_strlit("swift");
        reveal_strlit("sh");
        reveal_strlit("txt");
        reveal_strlit("md");
        reveal_strlit("pdf");
        reveal_strlit("rtf");
        reveal_strlit("doc");
        reveal_strlit("docx");
        reveal_strlit("odt");
        reveal_strlit("pages");
        assert(x.len() == 3);
        assert(x[0] == 'm');
        assert(x[1] == '4');
        assert(x[2] == 'a');
        assert(!(x == "png"@ || x == "jpg"@ || x == "jpeg"@ || x == "gif"@ || x == "webp"@ || x == "bmp"@ || x == "tif"@ || x == "tiff"@ || x == "svg"@ || x == "rs"@ || x == "ts"@ || x == "tsx"@ || x == "js"@ || x == "jsx"@ || x == "svelte"@ || x == "html"@ || x == "css"@ || x == "scss"@ || x == "json"@ || x == "toml"@ || x == "yaml"@ || x == "yml"@ || x == "py"@ || x == "go"@ || x == "c"@ || x == "h"@ || x == "cpp"@ || x == "hpp"@ || x == "java"@ || x == "kt"@ || x == "swift"@ || x == "sh"@ || x == "txt"@ || x == "md"@ || x == "pdf"@ || x == "rtf"@ || x == "doc"@ || x == "docx"@ || x == "odt"@ || x == "pages"@));
    }
    if x == "aac"@ {
        reveal_strlit("aac");
        reveal_strlit("png");
        reveal_strlit("jpg");
        reveal_strlit("jpeg");
        reveal_strlit("gif");
        reveal_strlit("webp");
        reveal_strlit("bmp");
        reveal_strlit("tif");
        reveal_strlit("tiff");
        reveal_strlit("svg");
        reveal_strlit("rs");
        reveal_strlit("ts");
        reveal_strlit("tsx");
        reveal_strlit("js");
        reveal_strlit("jsx");
        reveal_strlit("svelte");
        reveal_strlit("html");
        reveal_strlit("css");
        reveal_strlit("scss");
        reveal_strlit("json");
        reveal_strlit("toml");
        reveal_strlit("yaml");
        reveal_strlit("yml");
        reveal_strlit("py");
        reveal_strlit("go");
        reveal_strlit("c");
        reveal_strlit("h");
        reveal_strlit("cpp");
        reveal_strlit("hpp");
        reveal_strlit("java");
        reveal_strlit("kt");
        reveal_strlit("swift");
        reveal_strlit("sh");
        reveal_strlit("txt");
        reveal_strlit("md");
        reveal_strlit("pdf");
        reveal_strlit("rtf");
        reveal_strlit("doc");
        reveal_strlit("docx");
        reveal_strlit("odt");
        reveal_strlit("pages");
        assert(x.len() == 3);
        assert(x[0] == 'a');
        assert(x[1] == 'a');
        assert(x[2] == 'c');
        assert(!(x == "png"@ || x == "jpg"@ || x == "jpeg"@ || x == "gif"@ || x == "webp"@ || x == "bmp"@ || x == "tif"@ || x == "tiff"@ || x == "svg"@ || x == "rs"@ || x == "ts"@ || x == "tsx"@ || x == "js"@ || x == "jsx"@ || x == "svelte"@ || x == "html"@ || x == "css"@ || x == "scss"@ || x == "json"@ || x == "toml"@ || x == "yaml"@ || x == "yml"@ || x == "py"@ || x == "go"@ || x == "c"@ || x == "h"@ || x == "cpp"@ || x == "hpp"@ || x == "java"@ || x == "kt"@ || x == "swift"@ || x == "sh"@ || x == "txt"@ || x == "md"@ || x == "pdf"@ || x == "rtf"@ || x == "doc"@ || x == "docx"@ || x == "odt"@ || x == "pages"@));
    }
    if x == "wav"@ {
        reveal_strlit("wav");
        reveal_strlit("png");
        reveal_strlit("jpg");
        reveal_strlit("jpeg");
        reveal_strlit("gif");
        reveal_strlit("webp");
        reveal_strlit("bmp");
        reveal_strlit("tif");
        reveal_strlit("tiff");
        reveal_strlit("svg");
        reveal_strlit("rs");
        reveal_strlit("ts");
        reveal_strlit("tsx");
        reveal_strlit("js");
        reveal_strlit("jsx");
        reveal_strlit("svelte");
        reveal_strlit("html");
        reveal_strlit("css");
        reveal_strlit("scss");
        reveal_strlit("json");
        reveal_strlit("toml");
        reveal_strlit("yaml");
        reveal_strlit("yml");
        reveal_strlit("py");
        reveal_strlit("go");
        reveal_strlit("c");
        reveal_strlit("h");
        reveal_strlit("cpp");
        reveal_strlit("hpp");
        reveal_strlit("java");
        reveal_strlit("kt");
        reveal_strlit("swift");
        reveal_strlit("sh");
        reveal_strlit("txt");
        reveal_strlit("md");
        reveal_strlit("pdf");
        reveal_strlit("rtf");
        reveal_strlit("doc");
        reveal_strlit("docx");
        reveal_strlit("odt");
        reveal_strlit("pages");
        assert(x.len() == 3);
        assert(x[0] == 'w');
        assert(x[1] == 'a');
        assert(x[2] == 'v');
        assert(!(x == "png"@ || x == "jpg"@ || x == "jpeg"@ || x == "gif"@ || x == "webp"@ || x == "bmp"@ || x == "tif"@ || x == "tiff"@ || x == "svg"@ || x == "rs"@ || x == "ts"@ || x == "tsx"@ || x == "js"@ || x == "jsx"@ || x == "svelte"@ || x == "html"@ || x == "css"@ || x == "scss"@ || x == "json"@ || x == "toml"@ || x == "yaml"@ || x == "yml"@ || x == "py"@ || x == "go"@ || x == "c"@ || x == "h"@ || x == "cpp"@ || x == "hpp"@ || x == "java"@ || x == "kt"@ || x == "swift"@ || x == "sh"@ || x == "txt"@ || x == "md"@ || x == "pdf"@ || x == "rtf"@ || x == "doc"@ || x == "docx"@ || x == "odt"@ || x == "pages"@));
    }
    if x == "flac"@ {
        reveal_strlit("flac");
        reveal_strlit("png");
        reveal_strlit("jpg");
        reveal_strlit("jpeg");
        reveal_strlit("gif");
        reveal_strlit("webp");
        reveal_strlit("bmp");
        reveal_strlit("tif");
        reveal_strlit("tiff");
        reveal_strlit("svg");
        reveal_strlit("rs");
        reveal_strlit("ts");
        reveal_strlit("tsx");
        reveal_strlit("js");
        reveal_strlit("jsx");
        reveal_strlit("svelte");
        reveal_strlit("html");
        reveal_strlit("css");
        reveal_strlit("scss");
        reveal_strlit("json");
        reveal_strlit("toml");
        reveal_strlit("yaml");
        reveal_strlit("yml");
        reveal_strlit("py");
        reveal_strlit("go");
        reveal_strlit("c");
        reveal_strlit("h");
        reveal_strlit("cpp");
        reveal_strlit("hpp");
        reveal_strlit("java");
        reveal_strlit("kt");
        reveal_strlit("swift");
        reveal_strlit("sh");
        reveal_strlit("txt");
        reveal_strlit("md");
        reveal_strlit("pdf");
        reveal_strlit("rtf");
        reveal_strlit("doc");
        reveal_strlit("docx");
        reveal_strlit("odt");
        reveal_strlit("pages");
        assert(x.len() == 4);
        assert(x[0] == 'f');
        assert(x[1] == 'l');
        assert(x[2] == 'a');
        assert(x[3] == 'c');
        assert(!(x == "png"@ || x == "jpg"@ || x == "jpeg"@ || x == "gif"@ || x == "webp"@ || x == "bmp"@ || x == "tif"@ || x == "tiff"@ || x == "svg"@ || x == "rs"@ || x == "ts"@ || x == "tsx"@ || x == "js"@ || x == "jsx"@ || x == "svelte"@ || x == "html"@ || x == "css"@ || x == "scss"@ || x == "json"@ || x == "toml"@ || x == "yaml"@ || x == "yml"@ || x == "py"@ || x == "go"@ || x == "c"@ || x == "h"@ || x == "cpp"@ || x == "hpp"@ || x == "java"@ || x == "kt"@ || x == "swift"@ || x == "sh"@ || x == "txt"@ || x == "md"@ || x == "pdf"@ || x == "rtf"@ || x == "doc"@ || x == "docx"@ || x == "odt"@ || x == "pages"@));
    }
    if x == "ogg"@ {
        reveal_strlit("ogg");
        reveal_strlit("png");
        reveal_strlit("jpg");
        reveal_strlit("jpeg");
        reveal_strlit("gif");
        reveal_strlit("webp");
        reveal_strlit("bmp");
        reveal_strlit("tif");
        reveal_strlit("tiff");
        reveal_strlit("svg");
        reveal_strlit("rs");
        reveal_strlit("ts");
        reveal_strlit("tsx");
        reveal_strlit("js");
        reveal_strlit("jsx");
        reveal_strlit("svelte");
        reveal_strlit("html");
        reveal_strlit("css");
        reveal_strlit("scss");
        reveal_strlit("json");
        reveal_strlit("toml");
        reveal_strlit("yaml");
        reveal_strlit("yml");
        reveal_strlit("py");
        reveal_strlit("go");
        reveal_strlit("c");
        reveal_strlit("h");
        reveal_strlit("cpp");
        reveal_strlit("hpp");
        reveal_strlit("java");
        reveal_strlit("kt");
        reveal_strlit("swift");
        reveal_strlit("sh");
        reveal_strlit("txt");
        reveal_strlit("md");
        reveal_strlit("pdf");
        reveal_strlit("rtf");
        reveal_strlit("doc");
        reveal_strlit("docx");
        reveal_strlit("odt");
        reveal_strlit("pages");
        assert(x.len() == 3);
        assert(x[0] == 'o');
        assert(x[1] == 'g');
        assert(x[2] == 'g');
        assert(!(x == "png"@ || x == "jpg"@ || x == "jpeg"@ || x == "gif"@ || x == "webp"@ || x == "bmp"@ || x == "tif"@ || x == "tiff"@ || x == "svg"@ || x == "rs"@ || x == "ts"@ || x == "tsx"@ || x == "js"@ || x == "jsx"@ || x == "svelte"@ || x == "html"@ || x == "css"@ || x == "scss"@ || x == "json"@ || x == "toml"@ || x == "yaml"@ || x == "yml"@ || x == "py"@ || x == "go"@ || x == "c"@ || x == "h"@ || x == "cpp"@ || x == "hpp"@ || x == "java"@ || x == "kt"@ || x == "swift"@ || x == "sh"@ || x == "txt"@ || x == "md"@ || x == "pdf"@ || x == "rtf"@ || x == "doc"@ || x == "docx"@ || x == "odt"@ || x == "pages"@));
    }
    if x == "mp4"@ {
        reveal_strlit("mp4");
        reveal_strlit("png");
        reveal_strlit("jpg");
        reveal_strlit("jpeg");
        reveal_strlit("gif");
        reveal_strlit("webp");
        reveal_strlit("bmp");
        reveal_strlit("tif");
        reveal_strlit("tiff");
        reveal_strlit("svg");
        reveal_strlit("rs");
        reveal_strlit("ts");
        reveal_strlit("tsx");
        reveal_strlit("js");
        reveal_strlit("jsx");
        reveal_strlit("svelte");
        reveal_strlit("html");
        reveal_strlit("css");
        reveal_strlit("scss");
        reveal_strlit("json");
        reveal_strlit("toml");
        reveal_strlit("yaml");
        reveal_strlit("yml");
        reveal_strlit("py");
        reveal_strlit("go");
        reveal_strlit("c");
        reveal_strlit("h");
        reveal_strlit("cpp");
        reveal_strlit("hpp");
        reveal_strlit("java");
        reveal_strlit("kt");
        reveal_strlit("swift");
        reveal_strlit("sh");
        reveal_strlit("txt");
        reveal_strlit("md");
        reveal_strlit("pdf");
        reveal_strlit("rtf");
        reveal_strlit("doc");
        reveal_strlit("docx");
        reveal_strlit("odt");
        reveal_strlit("pages");
        reveal_strlit("mp3");
        reveal_strlit("m4a");
        reveal_strlit("aac");
        reveal_strlit("wav");
        reveal_strlit("flac");
        reveal_strlit("ogg");
        assert(x.len() == 3);
        assert(x[0] == 'm');
        assert(x[1] == 'p');
        assert(x[2] == '4');
        assert(!(x == "png"@ || x == "jpg"@ || x == "jpeg"@ || x == "gif"@ || x == "webp"@ || x == "bmp"@ || x == "tif"@ || x == "tiff"@ || x == "svg"@ || x == "rs"@ || x == "ts"@ || x == "tsx"@ || x == "js"@ || x == "jsx"@ || x == "svelte"@ || x == "html"@ || x == "css"@ || x == "scss"@ || x == "json"@ || x == "toml"@ || x == "yaml"@ || x == "yml"@ || x == "py"@ || x == "go"@ || x == "c"@ || x == "h"@ || x == "cpp"@ || x == "hpp"@ || x == "java"@ || x == "kt"@ || x == "swift"@ || x == "sh"@ || x == "txt"@ || x == "md"@ || x == "pdf"@ || x == "rtf"@ || x == "doc"@ || x == "docx"@ || x == "odt"@ || x == "pages"@ || x == "mp3"@ || x == "m4a"@ || x == "aac"@ || x == "wav"@ || x == "flac"@ || x == "ogg"@));
    }
    if x == "m4v"@ {
        reveal_strlit("m4v");
        reveal_strlit("png");
        reveal_strlit("jpg");
        reveal_strlit("jpeg");
        reveal_strlit("gif");
        reveal_strlit("webp");
        reveal_strlit("bmp");
        reveal_strlit("tif");
        reveal_strlit("tiff");
        reveal_strlit("svg");
        reveal_strlit("rs");
        reveal_strlit("ts");
        reveal_strlit("tsx");
        reveal_strlit("js");
        reveal_strlit("jsx");
        reveal_strlit("svelte");
        reveal_strlit("html");
        reveal_strlit("css");
        reveal_strlit("scss");
        reveal_strlit("json");
        reveal_strlit("toml");
        reveal_strlit("yaml");
        reveal_strlit("yml");
        reveal_strlit("py");
        reveal_strlit("go");
        reveal_strlit("c");
        reveal_strlit("h");
        reveal_strlit("cpp");
        reveal_strlit("hpp");
        reveal_strlit("java");
        reveal_strlit("kt");
        reveal_strlit("swift");
        reveal_strlit("sh");
        reveal_strlit("txt");
        reveal_strlit("md");
        reveal_strlit("pdf");
        reveal_strlit("rtf");
        reveal_strlit("doc");
        reveal_strlit("docx");
        reveal_strlit("odt");
        reveal_strlit("pages");
        reveal_strlit("mp3");
        reveal_strlit("m4a");
        reveal_strlit("aac");
        reveal_strlit("wav");
        reveal_strlit("flac");
        reveal_strlit("ogg");
        assert(x.len() == 3);
        assert(x[0] == 'm');
        assert(x[1] == '4');
        assert(x[2] == 'v');
        assert(!(x == "png"@ || x == "jpg"@ || x == "jpeg"@ || x == "gif"@ || x == "webp"@ || x == "bmp"@ || x == "tif"@ || x == "tiff"@ || x == "svg"@ || x == "rs"@ || x == "ts"@ || x == "tsx"@ || x == "js"@ || x == "jsx"@ || x == "svelte"@ || x == "html"@ || x == "css"@ || x == "scss"@ || x == "json"@ || x == "toml"@ || x == "yaml"@ || x == "yml"@ || x == "py"@ || x == "go"@ || x == "c"@ || x == "h"@ || x == "cpp"@ || x == "hpp"@ || x == "java"@ || x == "kt"@ || x == "swift"@ || x == "sh"@ || x == "txt"@ || x == "md"@ || x == "pdf"@ || x == "rtf"@ || x == "doc"@ || x == "docx"@ || x == "odt"@ || x == "pages"@ || x == "mp3"@ || x == "m4a"@ || x == "aac"@ || x == "wav"@ || x == "flac"@ || x == "ogg"@));
    }
    if x == "mov"@ {
        reveal_strlit("mov");
        reveal_strlit("png");
        reveal_strlit("jpg");
        reveal_strlit("jpeg");
        reveal_strlit("gif");
        reveal_strlit("webp");
        reveal_strlit("bmp");
        reveal_strlit("tif");
        reveal_strlit("tiff");
        reveal_strlit("svg");
        reveal_strlit("rs");
        reveal_strlit("ts");
        reveal_strlit("tsx");
        reveal_strlit("js");
        reveal_strlit("jsx");
        reveal_strlit("svelte");
        reveal_strlit("html");
        reveal_strlit("css");
        reveal_strlit("scss");
        reveal_strlit("json");
        reveal_strlit("toml");
        reveal_strlit("yaml");
        reveal_strlit("yml");
        reveal_strlit("py");
        reveal_strlit("go");
        reveal_strlit("c");
        reveal_strlit("h");
        reveal_strlit("cpp");
        reveal_strlit("hpp");
        reveal_strlit("java");
        reveal_strlit("kt");
        reveal_strlit("swift");
        reveal_strlit("sh");
        reveal_strlit("txt");
        reveal_strlit("md");
        reveal_strlit("pdf");
        reveal_strlit("rtf");
        reveal_strlit("doc");
        reveal_strlit("docx");
        reveal_strlit("odt");
        reveal_strlit("pages");
        reveal_strlit("mp3");
        reveal_strlit("m4a");
        reveal_strlit("aac");
        reveal_strlit("wav");
        reveal_strlit("flac");
        reveal_strlit("ogg");
        assert(x.len() == 3);
        assert(x[0] == 'm');
        assert(x[1] == 'o');
        assert(x[2] == 'v');
        assert(!(x == "png"@ || x == "jpg"@ || x == "jpeg"@ || x == "gif"@ || x == "webp"@ || x == "bmp"@ || x == "tif"@ || x == "tiff"@ || x == "svg"@ || x == "rs"@ || x == "ts"@ || x == "tsx"@ || x == "js"@ || x == "jsx"@ || x == "svelte"@ || x == "html"@ || x == "css"@ || x == "scss"@ || x == "json"@ || x == "toml"@ || x == "yaml"@ || x == "yml"@ || x == "py"@ || x == "go"@ || x == "c"@ || x == "h"@ || x == "cpp"@ || x == "hpp"@ || x == "java"@ || x == "kt"@ || x == "swift"@ || x == "sh"@ || x == "txt"@ || x == "md"@ || x == "pdf"@ || x == "rtf"@ || x == "doc"@ || x == "docx"@ || x == "odt"@ || x == "pages"@ || x == "mp3"@ || x == "m4a"@ || x == "aac"@ || x == "wav"@ || x == "flac"@ || x == "ogg"@));
    }
    if x == "mkv"@ {
        reveal_strlit("mkv");
        reveal_strlit("png");
        reveal_strlit("jpg");
        reveal_strlit("jpeg");
        reveal_strlit("gif");
        reveal_strlit("webp");
        reveal_strlit("bmp");
        reveal_strlit("tif");
        reveal_strlit("tiff");
        reveal_strlit("svg");
        reveal_strlit("rs");
        reveal_strlit("ts");
        reveal_strlit("tsx");
        reveal_strlit("js");
        reveal_strlit("jsx");
        reveal_strlit("svelte");
        reveal_strlit("html");
        reveal_strlit("css");
        reveal_strlit("scss");
        reveal_strlit("json");
        reveal_strlit("toml");
        reveal_strlit("yaml");
        reveal_strlit("yml");
        reveal_strlit("py");
        reveal_strlit("go");
        reveal_strlit("c");
        reveal_strlit("h");
        reveal_strlit("cpp");
        reveal_strlit("hpp");
        reveal_strlit("java");
        reveal_strlit("kt");
        reveal_strlit("swift");
        reveal_strlit("sh");
        reveal_strlit("txt");
        reveal_strlit("md");
        reveal_strlit("pdf");
        reveal_strlit("rtf");
        reveal_strlit("doc");
        reveal_strlit("docx");
        reveal_strlit("odt");
        reveal_strlit("pages");
        reveal_strlit("mp3");
        reveal_strlit("m4a");
        reveal_strlit("aac");
        reveal_strlit("wav");
        reveal_strlit("flac");
        reveal_strlit("ogg");
        assert(x.len() == 3);
        assert(x[0] == 'm');
        assert(x[1] == 'k');
        assert(x[2] == 'v');
        assert(!(x == "png"@ || x == "jpg"@ || x == "jpeg"@ || x == "gif"@ || x == "webp"@ || x == "bmp"@ || x == "tif"@ || x == "tiff"@ || x == "svg"@ || x == "rs"@ || x == "ts"@ || x == "tsx"@ || x == "js"@ || x == "jsx"@ || x == "svelte"@ || x == "html"@ || x == "css"@ || x == "scss"@ || x == "json"@ || x == "toml"@ || x == "yaml"@ || x == "yml"@ || x == "py"@ || x == "go"@ || x == "c"@ || x == "h"@ || x == "cpp"@ || x == "hpp"@ || x == "java"@ || x == "kt"@ || x == "swift"@ || x == "sh"@ || x == "txt"@ || x == "md"@ || x == "pdf"@ || x == "rtf"@ || x == "doc"@ || x == "docx"@ || x == "odt"@ || x == "pages"@ || x == "mp3"@ || x == "m4a"@ || x == "aac"@ || x == "wav"@ || x == "flac"@ || x == "ogg"@));
    }
    if x == "webm"@ {
        reveal_strlit("webm");
        reveal_strlit("png");
        reveal_strlit("jpg");
        reveal_strlit("jpeg");
        reveal_strlit("gif");
        reveal_strlit("webp");
        reveal_strlit("bmp");
        reveal_strlit("tif");
        reveal_strlit("tiff");
        reveal_strlit("svg");
        reveal_strlit("rs");
        reveal_strlit("ts");
        reveal_strlit("tsx");
        reveal_strlit("js");
        reveal_strlit("jsx");
        reveal_strlit("svelte");
        reveal_strlit("html");
        reveal_strlit("css");
        reveal_strlit("scss");
        reveal_strlit("json");
        reveal_strlit("toml");
        reveal_strlit("yaml");
        reveal_strlit("yml");
        reveal_strlit("py");
        reveal_strlit("go");
        reveal_strlit("c");
        reveal_strlit("h");
        reveal_strlit("cpp");
        reveal_strlit("hpp");
        reveal_strlit("java");
        reveal_strlit("kt");
        reveal_strlit("swift");
        reveal_strlit("sh");
        reveal_strlit("txt");
        reveal_strlit("md");
        reveal_strlit("pdf");
        reveal_strlit("rtf");
        reveal_strlit("doc");
        reveal_strlit("docx");
        reveal_strlit("odt");
        reveal_strlit("pages");
        reveal_strlit("mp3");
        reveal_strlit("m4a");
        reveal_strlit("aac");
        reveal_strlit("wav");
        reveal_strlit("flac");
        reveal_strlit("ogg");
        assert(x.len() == 4);
        assert(x[0] == 'w');
        assert(x[1] == 'e');
        assert(x[2] == 'b');
        assert(x[3] == 'm');
        assert(!(x == "png"@ || x == "jpg"@ || x == "jpeg"@ || x == "gif"@ || x == "webp"@ || x == "bmp"@ || x == "tif"@ || x == "tiff"@ || x == "svg"@ || x == "rs"@ || x == "ts"@ || x == "tsx"@ || x == "js"@ || x == "jsx"@ || x == "svelte"@ || x == "html"@ || x == "css"@ || x == "scss"@ || x == "json"@ || x == "toml"@ || x == "yaml"@ || x == "yml"@ || x == "py"@ || x == "go"@ || x == "c"@ || x == "h"@ || x == "cpp"@ || x == "hpp"@ || x == "java"@ || x == "kt"@ || x == "swift"@ || x == "sh"@ || x == "txt"@ || x == "md"@ || x == "pdf"@ || x == "rtf"@ || x == "doc"@ || x == "docx"@ || x == "odt"@ || x == "pages"@ || x == "mp3"@ || x == "m4a"@ || x == "aac"@ || x == "wav"@ || x == "flac"@ || x == "ogg"@));
    }
    if x == "avi"@ {
        reveal_strlit("avi");
        reveal_strlit("png");
        reveal_strlit("jpg");
        reveal_strlit("jpeg");
        reveal_strlit("gif");
        reveal_strlit("webp");
        reveal_strlit("bmp");
        reveal_strlit("tif");
        reveal_strlit("tiff");
        reveal_strlit("svg");
        reveal_strlit("rs");
        reveal_strlit("ts");
        reveal_strlit("tsx");
        reveal_strlit("js");
        reveal_strlit("jsx");
        reveal_strlit("svelte");
        reveal_strlit("html");
        reveal_strlit("css");
        reveal_strlit("scss");
        reveal_strlit("json");
        reveal_strlit("toml");
        reveal_strlit("yaml");
        reveal_strlit("yml");
        reveal_strlit("py");
        reveal_strlit("go");
        reveal_strlit("c");
        reveal_strlit("h");
        reveal_strlit("cpp");
        reveal_strlit("hpp");
        reveal_strlit("java");
        reveal_strlit("kt");
        reveal_strlit("swift");
        reveal_strlit("sh");
        reveal_strlit("txt");
        reveal_strlit("md");
        reveal_strlit("pdf");
        reveal_strlit("rtf");
        reveal_strlit("doc");
        reveal_strlit("docx");
        reveal_strlit("odt");
        reveal_strlit("pages");
        reveal_strlit("mp3");
        reveal_strlit("m4a");
        reveal_strlit("aac");
        reveal_strlit("wav");
        reveal_strlit("flac");
        reveal_strlit("ogg");
        assert(x.len() == 3);
        assert(x[0] == 'a');
        assert(x[1] == 'v');
        assert(x[2] == 'i');
        assert(!(x == "png"@ || x == "jpg"@ || x == "jpeg"@ || x == "gif"@ || x == "webp"@ || x == "bmp"@ || x == "tif"@ || x == "tiff"@ || x == "svg"@ || x == "rs"@ || x == "ts"@ || x == "tsx"@ || x == "js"@ || x == "jsx"@ || x == "svelte"@ || x == "html"@ || x == "css"@ || x == "scss"@ || x == "json"@ || x == "toml"@ || x == "yaml"@ || x == "yml"@ || x == "py"@ || x == "go"@ || x == "c"@ || x == "h"@ || x == "cpp"@ || x == "hpp"@ || x == "java"@ || x == "kt"@ || x == "swift"@ || x == "sh"@ || x == "txt"@ || x == "md"@ || x == "pdf"@ || x == "rtf"@ || x == "doc"@ || x == "docx"@ || x == "odt"@ || x == "pages"@ || x == "mp3"@ || x == "m4a"@ || x == "aac"@ || x == "wav"@ || x == "flac"@ || x == "ogg"@));
    }
    if x == "zip"@ {
        reveal_strlit("zip");
        reveal_strlit("png");
        reveal_strlit("jpg");
        reveal_strlit("jpeg");
        reveal_strlit("gif");
        reveal_strlit("webp");
        reveal_strlit("bmp");
        reveal_strlit("tif");
        reveal_strlit("tiff");
        reveal_strlit("svg");
        reveal_strlit("rs");
        reveal_strlit("ts");
        reveal_strlit("tsx");
        reveal_strlit("js");
        reveal_strlit("jsx");
        reveal_strlit("svelte");
        reveal_strlit("html");
        reveal_strlit("css");
        reveal_strlit("scss");
        reveal_strlit("json");
        reveal_strlit("toml");
        reveal_strlit("yaml");
        reveal_strlit("yml");
        reveal_strlit("py");
        reveal_strlit("go");
        reveal_strlit("c");
        reveal_strlit("h");
        reveal_strlit("cpp");
        reveal_strlit("hpp");
        reveal_strlit("java");
        reveal_strlit("kt");
        reveal_strlit("swift");
        reveal_strlit("sh");
        reveal_strlit("txt");
        reveal_strlit("md");
        reveal_strlit("pdf");
        reveal_strlit("rtf");
        reveal_strlit("doc");
        reveal_strlit("docx");
        reveal_strlit("odt");
        reveal_strlit("pages");
        reveal_strlit("mp3");
        reveal_strlit("m4a");
        reveal_strlit("aac");
        reveal_strlit("wav");
        reveal_strlit("flac");
        reveal_strlit("ogg");
        reveal_strlit("mp4");
        reveal_strlit("m4v");
        reveal_strlit("mov");
        reveal_strlit("mkv");
        reveal_strlit("webm");
        reveal_strlit("avi");
        assert(x.len() == 3);
        assert(x[0] == 'z');
        assert(x[1] == 'i');
        assert(x[2] == 'p');
        assert(!(x == "png"@ || x == "jpg"@ || x == "jpeg"@ || x == "gif"@ || x == "webp"@ || x == "bmp"@ || x == "tif"@ || x == "tiff"@ || x == "svg"@ || x == "rs"@ || x == "ts"@ || x == "tsx"@ || x == "js"@ || x == "jsx"@ || x == "svelte"@ || x == "html"@ || x == "css"@ || x == "scss"@ || x == "json"@ || x == "toml"@ || x == "yaml"@ || x == "yml"@ || x == "py"@ || x == "go"@ || x == "c"@ || x == "h"@ || x == "cpp"@ || x == "hpp"@ || x == "java"@ || x == "kt"@ || x == "swift"@ || x == "sh"@ || x == "txt"@ || x == "md"@ || x == "pdf"@ || x == "rtf"@ || x == "doc"@ || x == "docx"@ || x == "odt"@ || x == "pages"@ || x == "mp3"@ || x == "m4a"@ || x == "aac"@ || x == "wav"@ || x == "flac"@ || x == "ogg"@ || x == "mp4"@ || x == "m4v"@ || x == "mov"@ || x == "mkv"@ || x == "webm"@ || x == "avi"@));
    }
    if x == "tar"@ {
        reveal_strlit("tar");
        reveal_strlit("png");
        reveal_strlit("jpg");
        reveal_strlit("jpeg");
        reveal_strlit("gif");
        reveal_strlit("webp");
        reveal_strlit("bmp");
        reveal_strlit("tif");
        reveal_strlit("tiff");
        reveal_strlit("svg");
        reveal_strlit("rs");
        reveal_strlit("ts");
        reveal_strlit("tsx");
        reveal_strlit("js");
        reveal_strlit("jsx");
        reveal_strlit("svelte");
        reveal_strlit("html");
        reveal_strlit("css");
        reveal_strlit("scss");
        reveal_strlit("json");
        reveal_strlit("toml");
        reveal_strlit("yaml");
        reveal_strlit("yml");
        reveal_strlit("py");
        reveal_strlit("go");
        reveal_strlit("c");
        reveal_strlit("h");
        reveal_strlit("cpp");
        reveal_strlit("hpp");
        reveal_strlit("java");
        reveal_strlit("kt");
        reveal_strlit("swift");
        reveal_strlit("sh");
        reveal_strlit("txt");
        reveal_strlit("md");
        reveal_strlit("pdf");
        reveal_strlit("rtf");
        reveal_strlit("doc");
        reveal_strlit("docx");
        reveal_strlit("odt");
        reveal_strlit("pages");
        reveal_strlit("mp3");
        reveal_strlit("m4a");
        reveal_strlit("aac");
        reveal_strlit("wav");
        reveal_strlit("flac");
        reveal_strlit("ogg");
        reveal_strlit("mp4");
        reveal_strlit("m4v");
        reveal_strlit("mov");
        reveal_strlit("mkv");
        reveal_strlit("webm");
        reveal_strlit("avi");
        assert(x.len() == 3);
        assert(x[0] == 't');
        assert(x[1] == 'a');
        assert(x[2] == 'r');
        assert(!(x == "png"@ || x == "jpg"@ || x == "jpeg"@ || x == "gif"@ || x == "webp"@ || x == "bmp"@ || x == "tif"@ || x == "tiff"@ || x == "svg"@ || x == "rs"@ || x == "ts"@ || x == "tsx"@ || x == "js"@ || x == "jsx"@ || x == "svelte"@ || x == "html"@ || x == "css"@ || x == "scss"@ || x == "json"@ || x == "toml"@ || x == "yaml"@ || x == "yml"@ || x == "py"@ || x == "go"@ || x == "c"@ || x == "h"@ || x == "cpp"@ || x == "hpp"@ || x == "java"@ || x == "kt"@ || x == "swift"@ || x == "sh"@ || x == "txt"@ || x == "md"@ || x == "pdf"@ || x == "rtf"@ || x == "doc"@ || x == "docx"@ || x == "odt"@ || x == "pages"@ || x == "mp3"@ || x == "m4a"@ || x == "aac"@ || x == "wav"@ || x == "flac"@ || x == "ogg"@ || x == "mp4"@ || x == "m4v"@ || x == "mov"@ || x == "mkv"@ || x == "webm"@ || x == "avi"@));
    }
    if x == "gz"@ {
        reveal_strlit("gz");
        reveal_strlit("png");
        reveal_strlit("jpg");
        reveal_strlit("jpeg");
        reveal_strlit("gif");
        reveal_strlit("webp");
        reveal_strlit("bmp");
        reveal_strlit("tif");
        reveal_strlit("tiff");
        reveal_strlit("svg");
        reveal_strlit("rs");
        reveal_strlit("ts");
        reveal_strlit("tsx");
        reveal_strlit("js");
        reveal_strlit("jsx");
        reveal_strlit("svelte");
        reveal_strlit("html");
        reveal_strlit("css");
        reveal_strlit("scss");
        reveal_strlit("json");
        reveal_strlit("toml");
        reveal_strlit("yaml");
        reveal_strlit("yml");
        reveal_strlit("py");
        reveal_strlit("go");
        reveal_strlit("c");
        reveal_strlit("h");
        reveal_strlit("cpp");
        reveal_strlit("hpp");
        reveal_strlit("java");
        reveal_strlit("kt");
        reveal_strlit("swift");
        reveal_strlit("sh");
        reveal_strlit("txt");
        reveal_strlit("md");
        reveal_strlit("pdf");
        reveal_strlit("rtf");
        reveal_strlit("doc");
        reveal_strlit("docx");
        reveal_strlit("odt");
        reveal_strlit("pages");
        reveal_strlit("mp3");
        reveal_strlit("m4a");
        reveal_strlit("aac");
        reveal_strlit("wav");
        reveal_strlit("flac");
        reveal_strlit("ogg");
        reveal_strlit("mp4");
        reveal_strlit("m4v");
        reveal_strlit("mov");
        reveal_strlit("mkv");
        reveal_strlit("webm");
        reveal_strlit("avi");
        assert(x.len() == 2);
        assert(x[0] == 'g');
        assert(x[1] == 'z');
        assert(!(x == "png"@ || x == "jpg"@ || x == "jpeg"@ || x == "gif"@ || x == "webp"@ || x == "bmp"@ || x == "tif"@ || x == "tiff"@ || x == "svg"@ || x == "rs"@ || x == "ts"@ || x == "tsx"@ || x == "js"@ || x == "jsx"@ || x == "svelte"@ || x == "html"@ || x == "css"@ || x == "scss"@ || x == "json"@ || x == "toml"@ || x == "yaml"@ || x == "yml"@ || x == "py"@ || x == "go"@ || x == "c"@ || x == "h"@ || x == "cpp"@ || x == "hpp"@ || x == "java"@ || x == "kt"@ || x == "swift"@ || x == "sh"@ || x == "txt"@ || x == "md"@ || x == "pdf"@ || x == "rtf"@ || x == "doc"@ || x == "docx"@ || x == "odt"@ || x == "pages"@ || x == "mp3"@ || x == "m4a"@ || x == "aac"@ || x == "wav"@ || x == "flac"@ || x == "ogg"@ || x == "mp4"@ || x == "m4v"@ || x == "mov"@ || x == "mkv"@ || x == "webm"@ || x == "avi"@));
    }
    if x == "bz2"@ {
        reveal_strlit("bz2");
        reveal_strlit("png");
        reveal_strlit("jpg");
        reveal_strlit("jpeg");
        reveal_strlit("gif");
        reveal_strlit("webp");
        reveal_strlit("bmp");
        reveal_strlit("tif");
        reveal_strlit("tiff");
        reveal_strlit("svg");
        reveal_strlit("rs");
        reveal_strlit("ts");
        reveal_strlit("tsx");
        reveal_strlit("js");
        reveal_strlit("jsx");
        reveal_strlit("svelte");
        reveal_strlit("html");
        reveal_strlit("css");
        reveal_strlit("scss");
        reveal_strlit("json");
        reveal_strlit("toml");
        reveal_strlit("yaml");
        reveal_strlit("yml");
        reveal_strlit("py");
        reveal_strlit("go");
        reveal_strlit("c");
        reveal_strlit("h");
        reveal_strlit("cpp");
        reveal_strlit("hpp");
        reveal_strlit("java");
        reveal_strlit("kt");
        reveal_strlit("swift");
        reveal_strlit("sh");
        reveal_strlit("txt");
        reveal_strlit("md");
        reveal_strlit("pdf");
        reveal_strlit("rtf");
        reveal_strlit("doc");
        reveal_strlit("docx");
        reveal_strlit("odt");
        reveal_strlit("pages");
        reveal_strlit("mp3");
        reveal_strlit("m4a");
        reveal_strlit("aac");
        reveal_strlit("wav");
        reveal_strlit("flac");
        reveal_strlit("ogg");
        reveal_strlit("mp4");
        reveal_strlit("m4v");
        reveal_strlit("mov");
        reveal_strlit("mkv");
        reveal_strlit("webm");
        reveal_strlit("avi");
        assert(x.len() == 3);
        assert(x[0] == 'b');
        assert(x[1] == 'z');
        assert(x[2] == '2');
        assert(!(x == "png"@ || x == "jpg"@ || x == "jpeg"@ || x == "gif"@ || x == "webp"@ || x == "bmp"@ || x == "tif"@ || x == "tiff"@ || x == "svg"@ || x == "rs"@ || x == "ts"@ || x == "tsx"@ || x == "js"@ || x == "jsx"@ || x == "svelte"@ || x == "html"@ || x == "css"@ || x == "scss"@ || x == "json"@ || x == "toml"@ || x == "yaml"@ || x == "yml"@ || x == "py"@ || x == "go"@ || x == "c"@ || x == "h"@ || x == "cpp"@ || x == "hpp"@ || x == "java"@ || x == "kt"@ || x == "swift"@ || x == "sh"@ || x == "txt"@ || x == "md"@ || x == "pdf"@ || x == "rtf"@ || x == "doc"@ || x == "docx"@ || x == "odt"@ || x == "pages"@ || x == "mp3"@ || x == "m4a"@ || x == "aac"@ || x == "wav"@ || x == "flac"@ || x == "ogg"@ || x == "mp4"@ || x == "m4v"@ || x == "mov"@ || x == "mkv"@ || x == "webm"@ || x == "avi"@));
    }
    if x == "xz"@ {
        reveal_strlit("xz");
        reveal_strlit("png");
        reveal_strlit("jpg");
        reveal_strlit("jpeg");
        reveal_strlit("gif");
        reveal_strlit("webp");
        reveal_strlit("bmp");
        reveal_strlit("tif");
        reveal_strlit("tiff");
        reveal_strlit("svg");
        reveal_strlit("rs");
        reveal_strlit("ts");
        reveal_strlit("tsx");
        reveal_strlit("js");
        reveal_strlit("jsx");
        reveal_strlit("svelte");
        reveal_strlit("html");
        reveal_strlit("css");
        reveal_strlit("scss");
        reveal_strlit("json");
        reveal_strlit("toml");
        reveal_strlit("yaml");
        reveal_strlit("yml");
        reveal_strlit("py");
        reveal_strlit("go");
        reveal_strlit("c");
        reveal_strlit("h");
        reveal_strlit("cpp");
        reveal_strlit("hpp");
        reveal_strlit("java");
        reveal_strlit("kt");
        reveal_strlit("swift");
        reveal_strlit("sh");
        reveal_strlit("txt");
        reveal_strlit("md");
        reveal_strlit("pdf");
        reveal_strlit("rtf");
        reveal_strlit("doc");
        reveal_strlit("docx");
        reveal_strlit("odt");
        reveal_strlit("pages");
        reveal_strlit("mp3");
        reveal_strlit("m4a");
        reveal_strlit("aac");
        reveal_strlit("wav");
        reveal_strlit("flac");
        reveal_strlit("ogg");
        reveal_strlit("mp4");
        reveal_strlit("m4v");
        reveal_strlit("mov");
        reveal_strlit("mkv");
        reveal_strlit("webm");
        reveal_strlit("avi");
        assert(x.len() == 2);
        assert(x[0] == 'x');
        assert(x[1] == 'z');
        assert(!(x == "png"@ || x == "jpg"@ || x == "jpeg"@ || x == "gif"@ || x == "webp"@ || x == "bmp"@ || x == "tif"@ || x == "tiff"@ || x == "svg"@ || x == "rs"@ || x == "ts"@ || x == "tsx"@ || x == "js"@ || x == "jsx"@ || x == "svelte"@ || x == "html"@ || x == "css"@ || x == "scss"@ || x == "json"@ || x == "toml"@ || x == "yaml"@ || x == "yml"@ || x == "py"@ || x == "go"@ || x == "c"@ || x == "h"@ || x == "cpp"@ || x == "hpp"@ || x == "java"@ || x == "kt"@ || x == "swift"@ || x == "sh"@ || x == "txt"@ || x == "md"@ || x == "pdf"@ || x == "rtf"@ || x == "doc"@ || x == "docx"@ || x == "odt"@ || x == "pages"@ || x == "mp3"@ || x == "m4a"@ || x == "aac"@ || x == "wav"@ || x == "flac"@ || x == "ogg"@ || x == "mp4"@ || x == "m4v"@ || x == "mov"@ || x == "mkv"@ || x == "webm"@ || x == "avi"@));
    }
    if x == "zst"@ {
        reveal_strlit("zst");
        reveal_strlit("png");
        reveal_strlit("jpg");
        reveal_strlit("jpeg");
        reveal_strlit("gif");
        reveal_strlit("webp");
        reveal_strlit("bmp");
        reveal_strlit("tif");
        reveal_strlit("tiff");
        reveal_strlit("svg");
        reveal_strlit("rs");
        reveal_strlit("ts");
        reveal_strlit("tsx");
        reveal_strlit("js");
        reveal_strlit("jsx");
        reveal_strlit("svelte");
        reveal_strlit("html");
        reveal_strlit("css");
        reveal_strlit("scss");
        reveal_strlit("json");
        reveal_strlit("toml");
        reveal_strlit("yaml");
        reveal_strlit("yml");
        reveal_strlit("py");
        reveal_strlit("go");
        reveal_strlit("c");
        reveal_strlit("h");
        reveal_strlit("cpp");
        reveal_strlit("hpp");
        reveal_strlit("java");
        reveal_strlit("kt");
        reveal_strlit("swift");
        reveal_strlit("sh");
        reveal_strlit("txt");
        reveal_strlit("md");
        reveal_strlit("pdf");
        reveal_strlit("rtf");
        reveal_strlit("doc");
        reveal_strlit("docx");
        reveal_strlit("odt");
        reveal_strlit("pages");
        reveal_strlit("mp3");
        reveal_strlit("m4a");
        reveal_strlit("aac");
        reveal_strlit("wav");
        reveal_strlit("flac");
        reveal_strlit("ogg");
        reveal_strlit("mp4");
        reveal_strlit("m4v");
        reveal_strlit("mov");
        reveal_strlit("mkv");
        reveal_strlit("webm");
        reveal_strlit("avi");
        assert(x.len() == 3);
        assert(x[0] == 'z');
        assert(x[1] == 's');
        assert(x[2] == 't');
        assert(!(x == "png"@ || x == "jpg"@ || x == "jpeg"@ || x == "gif"@ || x == "webp"@ || x == "bmp"@ || x == "tif"@ || x == "tiff"@ || x == "svg"@ || x == "rs"@ || x == "ts"@ || x == "tsx"@ || x == "js"@ || x == "jsx"@ || x == "svelte"@ || x == "html"@ || x == "css"@ || x == "scss"@ || x == "json"@ || x == "toml"@ || x == "yaml"@ || x == "yml"@ || x == "py"@ || x == "go"@ || x == "c"@ || x == "h"@ || x == "cpp"@ || x == "hpp"@ || x == "java"@ || x == "kt"@ || x == "swift"@ || x == "sh"@ || x == "txt"@ || x == "md"@ || x == "pdf"@ || x == "rtf"@ || x == "doc"@ || x == "docx"@ || x == "odt"@ || x == "pages"@ || x == "mp3"@ || x == "m4a"@ || x == "aac"@ || x == "wav"@ || x == "flac"@ || x == "ogg"@ || x == "mp4"@ || x == "m4v"@ || x == "mov"@ || x == "mkv"@ || x == "webm"@ || x == "avi"@));
    }
    if x == "7z"@ {
        reveal_strlit("7z");
        reveal_strlit("png");
        reveal_strlit("jpg");
        reveal_strlit("jpeg");
        reveal_strlit("gif");
        reveal_strlit("webp");
        reveal_strlit("bmp");
        reveal_strlit("tif");
        reveal_strlit("tiff");
        reveal_strlit("svg");
        reveal_strlit("rs");
        reveal_strlit("ts");
        reveal_strlit("tsx");
        reveal_strlit("js");
        reveal_strlit("jsx");
        reveal_strlit("svelte");
        reveal_strlit("html");
        reveal_strlit("css");
        reveal_strlit("scss");
        reveal_strlit("json");
        reveal_strlit("toml");
        reveal_strlit("yaml");
        reveal_strlit("yml");
        reveal_strlit("py");
        reveal_strlit("go");
        reveal_strlit("c");
        reveal_strlit("h");
        reveal_strlit("cpp");
        reveal_strlit("hpp");
        reveal_strlit("java");
        reveal_strlit("kt");
        reveal_strlit("swift");
        reveal_strlit("sh");
        reveal_strlit("txt");
        reveal_strlit("md");
        reveal_strlit("pdf");
        reveal_strlit("rtf");
        reveal_strlit("doc");
        reveal_strlit("docx");
        reveal_strlit("odt");
        reveal_strlit("pages");
        reveal_strlit("mp3");
        reveal_strlit("m4a");
        reveal_strlit("aac");
        reveal_strlit("wav");
        reveal_strlit("flac");
        reveal_strlit("ogg");
        reveal_strlit("mp4");
        reveal_strlit("m4v");
        reveal_strlit("mov");
        reveal_strlit("mkv");
        reveal_strlit("webm");
        reveal_strlit("avi");
        assert(x.len() == 2);
        assert(x[0] == '7');
        assert(x[1] == 'z');
        assert(!(x == "png"@ || x == "jpg"@ || x == "jpeg"@ || x == "gif"@ || x == "webp"@ || x == "bmp"@ || x == "tif"@ || x == "tiff"@ || x == "svg"@ || x == "rs"@ || x == "ts"@ || x == "tsx"@ || x == "js"@ || x == "jsx"@ || x == "svelte"@ || x == "html"@ || x == "css"@ || x == "scss"@ || x == "json"@ || x == "toml"@ || x == "yaml"@ || x == "yml"@ || x == "py"@ || x == "go"@ || x == "c"@ || x == "h"@ || x == "cpp"@ || x == "hpp"@ || x == "java"@ || x == "kt"@ || x == "swift"@ || x == "sh"@ || x == "txt"@ || x == "md"@ || x == "pdf"@ || x == "rtf"@ || x == "doc"@ || x == "docx"@ || x == "odt"@ || x == "pages"@ || x == "mp3"@ || x == "m4a"@ || x == "aac"@ || x == "wav"@ || x == "flac"@ || x == "ogg"@ || x == "mp4"@ || x == "m4v"@ || x == "mov"@ || x == "mkv"@ || x == "webm"@ || x == "avi"@));
    }
    if x == "rar"@ {
        reveal_strlit("rar");
        reveal_strlit("png");
        reveal_strlit("jpg");
        reveal_strlit("jpeg");
        reveal_strlit("gif");
        reveal_strlit("webp");
        reveal_strlit("bmp");
        reveal_strlit("tif");
        reveal_strlit("tiff");
        reveal_strlit("svg");
        reveal_strlit("rs");
        reveal_strlit("ts");
        reveal_strlit("tsx");
        reveal_strlit("js");
        reveal_strlit("jsx");
        reveal_strlit("svelte");
        reveal_strlit("html");
        reveal_strlit("css");
        reveal_strlit("scss");
        reveal_strlit("json");
        reveal_strlit("toml");
        reveal_strlit("yaml");
        reveal_strlit("yml");
        reveal_strlit("py");
        reveal_strlit("go");
        reveal_strlit("c");
        reveal_strlit("h");
        reveal_strlit("cpp");
        reveal_strlit("hpp");
        reveal_strlit("java");
        reveal_strlit("kt");
        reveal_strlit("swift");
        reveal_strlit("sh");
        reveal_strlit("txt");
        reveal_strlit("md");
        reveal_strlit("pdf");
        reveal_strlit("rtf");
        reveal_strlit("doc");
        reveal_strlit("docx");
        reveal_strlit("odt");
        reveal_strlit("pages");
        reveal_strlit("mp3");
        reveal_strlit("m4a");
        reveal_strlit("aac");
        reveal_strlit("wav");
        reveal_strlit("flac");
        reveal_strlit("ogg");
        reveal_strlit("mp4");
        reveal_strlit("m4v");
        reveal_strlit("mov");
        reveal_strlit("mkv");
        reveal_strlit("webm");
        reveal_strlit("avi");
        assert(x.len() == 3);
        assert(x[0] == 'r');
        assert(x[1] == 'a');
        assert(x[2] == 'r');
        assert(!(x == "png"@ || x == "jpg"@ || x == "jpeg"@ || x == "gif"@ || x == "webp"@ || x == "bmp"@ || x == "tif"@ || x == "tiff"@ || x == "svg"@ || x == "rs"@ || x == "ts"@ || x == "tsx"@ || x == "js"@ || x == "jsx"@ || x == "svelte"@ || x == "html"@ || x == "css"@ || x == "scss"@ || x == "json"@ || x == "toml"@ || x == "yaml"@ || x == "yml"@ || x == "py"@ || x == "go"@ || x == "c"@ || x == "h"@ || x == "cpp"@ || x == "hpp"@ || x == "java"@ || x == "kt"@ || x == "swift"@ || x == "sh"@ || x == "txt"@ || x == "md"@ || x == "pdf"@ || x == "rtf"@ || x == "doc"@ || x == "docx"@ || x == "odt"@ || x == "pages"@ || x == "mp3"@ || x == "m4a"@ || x == "aac"@ || x == "wav"@ || x == "flac"@ || x == "ogg"@ || x == "mp4"@ || x == "m4v"@ || x == "mov"@ || x == "mkv"@ || x == "webm"@ || x == "avi"@));
    }
}

/// The desktop content kinds: an extension, in any ASCII case, has the kind of the table
/// that lists it, and every other extension, or none, is "other".
pub proof fn lemma_desktop_extension_kinds(e: Seq<char>)
    ensures
        (ascii_lower_seq(e) == "png"@ || ascii_lower_seq(e) == "jpg"@ || ascii_lower_seq(e) == "jpeg"@ || ascii_lower_seq(e) == "gif"@ || ascii_lower_seq(e) == "webp"@ || ascii_lower_seq(e) == "bmp"@ || ascii_lower_seq(e) == "tif"@ || ascii_lower_seq(e) == "tiff"@ || ascii_lower_seq(e) == "svg"@) ==> kind_of_extension(lowered(Some(e))) == "image"@,
        (ascii_lower_seq(e) == "rs"@ || ascii_lower_seq(e) == "ts"@ || ascii_lower_seq(e) == "tsx"@ || ascii_lower_seq(e) == "js"@ || ascii_lower_seq(e) == "jsx"@ || ascii_lower_seq(e) == "svelte"@ || ascii_lower_seq(e) == "html"@ || ascii_lower_seq(e) == "css"@ || ascii_lower_seq(e) == "scss"@ || ascii_lower_seq(e) == "json"@ || ascii_lower_seq(e) == "toml"@ || ascii_lower_seq(e) == "yaml"@ || ascii_lower_seq(e) == "yml"@ || ascii_lower_seq(e) == "py"@ || ascii_lower_seq(e) == "go"@ || ascii_lower_seq(e) == "c"@ || ascii_lower_seq(e) == "h"@ || ascii_lower_seq(e) == "cpp"@ || ascii_lower_seq(e) == "hpp"@ || ascii_lower_seq(e) == "java"@ || ascii_lower_seq(e) == "kt"@ || ascii_lower_seq(e) == "swift"@ || ascii_lower_seq(e) == "sh"@) ==> kind_of_extension(lowered(Some(e))) == "code"@,
        (ascii_lower_seq(e) == "txt"@ || ascii_lower_seq(e) == "md"@ || ascii_lower_seq(e) == "pdf"@ || ascii_lower_seq(e) == "rtf"@ || ascii_lower_seq(e) == "doc"@ || ascii_lower_seq(e) == "docx"@ || ascii_lower_seq(e) == "odt"@ || ascii_lower_seq(e) == "pages"@) ==> kind_of_extension(lowered(Some(e))) == "document"@,
        (ascii_lower_seq(e) == "mp3"@ || ascii_lower_seq(e) == "m4a"@ || ascii_lower_seq(e) == "aac"@ || ascii_lower_seq(e) == "wav"@ || ascii_lower_seq(e) == "flac"@ || ascii_lower_seq(e) == "ogg"@) ==> kind_of_extension(lowered(Some(e))) == "audio"@,
        (ascii_lower_seq(e) == "mp4"@ || ascii_lower_seq(e) == "m4v"@ || ascii_lower_seq(e) == "mov"@ || ascii_lower_seq(e) == "mkv"@ || ascii_lower_seq(e) == "webm"@ || ascii_lower_seq(e) == "avi"@) ==> kind_of_extension(lowered(Some(e))) == "video"@,
        (ascii_lower_seq(e) == "zip"@ || ascii_lower_seq(e) == "tar"@ || ascii_lower_seq(e) == "gz"@ || ascii_lower_seq(e) == "bz2"@ || ascii_lower_seq(e) == "xz"@ || ascii_lower_seq(e) == "zst"@ || ascii_lower_seq(e) == "7z"@ || ascii_lower_seq(e) == "rar"@) ==> kind_of_extension(lowered(Some(e))) == "archive"@,
        !(ascii_lower_seq(e) == "png"@ || ascii_lower_seq(e) == "jpg"@ || ascii_lower_seq(e) == "jpeg"@ || ascii_lower_seq(e) == "gif"@ || ascii_lower_seq(e) == "webp"@ || ascii_lower_seq(e) == "bmp"@ || ascii_lower_seq(e) == "tif"@ || ascii_lower_seq(e) == "tiff"@ || ascii_lower_seq(e) == "svg"@ || ascii_lower_seq(e) == "rs"@ || ascii_lower_seq(e) == "ts"@ || ascii_lower_seq(e) == "tsx"@ || ascii_lower_seq(e) == "js"@ || ascii_lower_seq(e) == "jsx"@ || ascii_lower_seq(e) == "svelte"@ || ascii_lower_seq(e) == "html"@ || ascii_lower_seq(e) == "css"@ || ascii_lower_seq(e) == "scss"@ || ascii_lower_seq(e) == "json"@ || ascii_lower_seq(e) == "toml"@ || ascii_lower_seq(e) == "yaml"@ || ascii_lower_seq(e) == "yml"@ || ascii_lower_seq(e) == "py"@ || ascii_lower_seq(e) == "go"@ || ascii_lower_seq(e) == "c"@ || ascii_lower_seq(e) == "h"@ || ascii_lower_seq(e) == "cpp"@ || ascii_lower_seq(e) == "hpp"@ || ascii_lower_seq(e) == "java"@ || ascii_lower_seq(e) == "kt"@ || ascii_lower_seq(e) == "swift"@ || ascii_lower_seq(e) == "sh"@ || ascii_lower_seq(e) == "txt"@ || ascii_lower_seq(e) == "md"@ || ascii_lower_seq(e) == "pdf"@ || ascii_lower_seq(e) == "rtf"@ || ascii_lower_seq(e) == "doc"@ || ascii_lower_seq(e) == "docx"@ || ascii_lower_seq(e) == "odt"@ || ascii_lower_seq(e) == "pages"@ || ascii_lower_seq(e) == "mp3"@ || ascii_lower_seq(e) == "m4a"@ || ascii_lower_seq(e) == "aac"@ || ascii_lower_seq(e) == "wav"@ || ascii_lower_seq(e) == "flac"@ || ascii_lower_seq(e) == "ogg"@ || ascii_lower_seq(e) == "mp4"@ || ascii_lower_seq(e) == "m4v"@ || ascii_lower_seq(e) == "mov"@ || ascii_lower_seq(e) == "mkv"@ || ascii_lower_seq(e) == "webm"@ || ascii_lower_seq(e) == "avi"@ || ascii_lower_seq(e) == "zip"@ || ascii_lower_seq(e) == "tar"@ || ascii_lower_seq(e) == "gz"@ || ascii_lower_seq(e) == "bz2"@ || ascii_lower_seq(e) == "xz"@ || ascii_lower_seq(e) == "zst"@ || ascii_lower_seq(e) == "7z"@ || ascii_lower_seq(e) == "rar"@) ==> kind_of_extension(lowered(Some(e))) == "other"@,
        kind_of_extension(None) == "other"@,
{
    lemma_tables_disjoint(ascii_lower_seq(e));
    lemma_table_members(ascii_lower_seq(e));
}

/// The extensions listed in a remote table are exactly its entries.
proof fn lemma_remote_table_members(x: Seq<char>)
    ensures
        remote_image_extensions().contains(x) ==> (x == "jpg"@ || x == "jpeg"@ || x == "png"@ || x == "gif"@ || x == "webp"@ || x == "bmp"@ || x == "svg"@),
        remote_document_extensions().contains(x) ==> (x == "md"@ || x == "txt"@ || x == "pdf"@ || x == "doc"@ || x == "docx"@ || x == "rtf"@),
        remote_code_extensions().contains(x) ==> (x == "rs"@ || x == "ts"@ || x == "js"@ || x == "svelte"@ || x == "py"@ || x == "go"@ || x == "json"@ || x == "toml"@ || x == "yaml"@ || x == "yml"@),
        remote_audio_extensions().contains(x) ==> (x == "mp3"@ || x == "m4a"@ || x == "wav"@ || x == "flac"@ || x == "ogg"@),
        remote_video_extensions().contains(x) ==> (x == "mp4"@ || x == "mov"@ || x == "mkv"@ || x == "webm"@ || x == "avi"@),
        remote_archive_extensions().contains(x) ==> (x == "zip"@ || x == "tar"@ || x == "gz"@ || x == "xz"@ || x == "zst"@ || x == "7z"@ || x == "rar"@),
{
}

/// No extension is in two of the remote tables.
proof fn lemma_remote_tables_disjoint(x: Seq<char>)
    ensures
        remote_document_extensions().contains(x) ==> !remote_image_extensions().contains(x),
        remote_code_extensions().contains(x) ==> !remote_image_extensions().contains(x) && !remote_document_extensions().contains(x),
        remote_audio_extensions().contains(x) ==> !remote_image_extensions().contains(x) && !remote_document_extensions().contains(x) && !remote_code_extensions().contains(x),
        remote_video_extensions().contains(x) ==> !remote_image_extensions().contains(x) && !remote_document_extensions().contains(x) && !remote_code_extensions().contains(x) && !remote_audio_extensions().contains(x),
        remote_archive_extensions().contains(x) ==> !remote_image_extensions().contains(x) && !remote_document_extensions().contains(x) && !remote_code_extensions().contains(x) && !remote_audio_extensions().contains(x) && !remote_video_extensions().contains(x),
{
    lemma_remote_table_members(x);
    if x == "md"@ {
        reveal_strlit("md");
        reveal_strlit("jpg");
        reveal_strlit("jpeg");
        reveal_strlit("png");
        reveal_strlit("gif");
        reveal_strlit("webp");
        reveal_strlit("bmp");
        reveal_strlit("svg");
        assert(x.len() == 2);
        assert(x[0] == 'm');
        assert(x[1] == 'd');
        assert(!(x == "jpg"@ || x == "jpeg"@ || x == "png"@ || x == "gif"@ || x == "webp"@ || x == "bmp"@ || x == "svg"@));
    }
    if x == "txt"@ {
        reveal_strlit("txt");
        reveal_strlit("jpg");
        reveal_strlit("jpeg");
        reveal_strlit("png");
        reveal_strlit("gif");
        reveal_strlit("webp");
        reveal_strlit("bmp");
        reveal_strlit("svg");
        assert(x.len() == 3);
        assert(x[0] == 't');
        assert(x[1] == 'x');
        assert(x[2] == 't');
        assert(!(x == "jpg"@ || x == "jpeg"@ || x == "png"@ || x == "gif"@ || x == "webp"@ || x == "bmp"@ || x == "svg"@));
    }
    if x == "pdf"@ {
        reveal_strlit("pdf");
        reveal_strlit("jpg");
        reveal_strlit("jpeg");
        reveal_strlit("png");
        reveal_strlit("gif");
        reveal_strlit("webp");
        reveal_strlit("bmp");
        reveal_strlit("svg");
        assert(x.len() == 3);
        assert(x[0] == 'p');
        assert(x[1] == 'd');
        assert(x[2] == 'f');
        assert(!(x == "jpg"@ || x == "jpeg"@ || x == "png"@ || x == "gif"@ || x == "webp"@ || x == "bmp"@ || x == "svg"@));
    }
    if x == "doc"@ {
        reveal_strlit("doc");
        reveal_strlit("jpg");
        reveal_strlit("jpeg");
        reveal_strlit("png");
        reveal_strlit("gif");
        reveal_strlit("webp");
        reveal_strlit("bmp");
        reveal_strlit("svg");
        assert(x.len() == 3);
        assert(x[0] == 'd');
        assert(x[1] == 'o');
        assert(x[2] == 'c');
        assert(!(x == "jpg"@ || x == "jpeg"@ || x == "png"@ || x == "gif"@ || x == "webp"@ || x == "bmp"@ || x == "svg"@));
    }
    if x == "docx"@ {
        reveal_strlit("docx");
        reveal_strlit("jpg");
        reveal_strlit("jpeg");
        reveal_strlit("png");
        reveal_strlit("gif");
        reveal_strlit("webp");
        reveal_strlit("bmp");
        reveal_strlit("svg");
        assert(x.len() == 4);
        assert(x[0] == 'd');
        assert(x[1] == 'o');
        assert(x[2] == 'c');
        assert(x[3] == 'x');
        assert(!(x == "jpg"@ || x == "jpeg"@ || x == "png"@ || x == "gif"@ || x == "webp"@ || x == "bmp"@ || x == "svg"@));
    }
    if x == "rtf"@ {
        reveal_strlit("rtf");
        reveal_strlit("jpg");
        reveal_strlit("jpeg");
        reveal_strlit("png");
        reveal_strlit("gif");
        reveal_strlit("webp");
        reveal_strlit("bmp");
        reveal_strlit("svg");
        assert(x.len() == 3);
        assert(x[0] == 'r');
        assert(x[1] == 't');
        assert(x[2] == 'f');
        assert(!(x == "jpg"@ || x == "jpeg"@ || x == "png"@ || x == "gif"@ || x == "webp"@ || x == "bmp"@ || x == "svg"@));
    }
    if x == "rs"@ {
        reveal_strlit("rs");
        reveal_strlit("jpg");
        reveal_strlit("jpeg");
        reveal_strlit("png");
        reveal_strlit("gif");
        reveal_strlit("webp");
        reveal_strlit("bmp");
        reveal_strlit("svg");
        reveal_strlit("md");
        reveal_strlit("txt");
        reveal_strlit("pdf");
        reveal_strlit("doc");
        reveal_strlit("docx");
        reveal_strlit("rtf");
        assert(x.len() == 2);
        assert(x[0] == 'r');
        assert(x[1] == 's');
        assert(!(x == "jpg"@ || x == "jpeg"@ || x == "png"@ || x == "gif"@ || x == "webp"@ || x == "bmp"@ || x == "svg"@ || x == "md"@ || x == "txt"@ || x == "pdf"@ || x == "doc"@ || x == "docx"@ || x == "rtf"@));
    }
    if x == "ts"@ {
        reveal_strlit("ts");
        reveal_strlit("jpg");
        reveal_strlit("jpeg");
        reveal_strlit("png");
        reveal_strlit("gif");
        reveal_strlit("webp");
        reveal_strlit("bmp");
        reveal_strlit("svg");
        reveal_strlit("md");
        reveal_strlit("txt");
        reveal_strlit("pdf");
        reveal_strlit("doc");
        reveal_strlit("docx");
        reveal_strlit("rtf");
        assert(x.len() == 2);
        assert(x[0] == 't');
        assert(x[1] == 's');
        assert(!(x == "jpg"@ || x == "jpeg"@ || x == "png"@ || x == "gif"@ || x == "webp"@ || x == "bmp"@ || x == "svg"@ || x == "md"@ || x == "txt"@ || x == "pdf"@ || x == "doc"@ || x == "docx"@ || x == "rtf"@));
    }
    if x == "js"@ {
        reveal_strlit("js");
        reveal_strlit("jpg");
        reveal_strlit("jpeg");
        reveal_strlit("png");
        reveal_strlit("gif");
        reveal_strlit("webp");
        reveal_strlit("bmp");
        reveal_strlit("svg");
        reveal_strlit("md");
        reveal_strlit("txt");
        reveal_strlit("pdf");
        reveal_strlit("doc");
        reveal_strlit("docx");
        reveal_strlit("rtf");
        assert(x.len() == 2);
        assert(x[0] == 'j');
        assert(x[1] == 's');
        assert(!(x == "jpg"@ || x == "jpeg"@ || x == "png"@ || x == "gif"@ || x == "webp"@ || x == "bmp"@ || x == "svg"@ || x == "md"@ || x == "txt"@ || x == "pdf"@ || x == "doc"@ || x == "docx"@ || x == "rtf"@));
    }
    if x == "svelte"@ {
        reveal_strlit("svelte");
        reveal_strlit("jpg");
        reveal_strlit("jpeg");
        reveal_strlit("png");
        reveal_strlit("gif");
        reveal_strlit("webp");
        reveal_strlit("bmp");
        reveal_strlit("svg");
        reveal_strlit("md");
        reveal_strlit("txt");
        reveal_strlit("pdf");
        reveal_strlit("doc");
        reveal_strlit("docx");
        reveal_strlit("rtf");
        assert(x.len() == 6);
        assert(x[0] == 's');
        assert(x[1] == 'v');
        assert(x[2] == 'e');
        assert(x[3] == 'l');
        assert(x[4] == 't');
        assert(x[5] == 'e');
        assert(!(x == "jpg"@ || x == "jpeg"@ || x == "png"@ || x == "gif"@ || x == "webp"@ || x == "bmp"@ || x == "svg"@ || x == "md"@ || x == "txt"@ || x == "pdf"@ || x == "doc"@ || x == "docx"@ || x == "rtf"@));
    }
    if x == "py"@ {
        reveal_strlit("py");
        reveal_strlit("jpg");
        reveal_strlit("jpeg");
        reveal_strlit("png");
        reveal_strlit("gif");
        reveal_strlit("webp");
        reveal_strlit("bmp");
        reveal_strlit("svg");
        reveal_strlit("md");
        reveal_strlit("txt");
        reveal_strlit("pdf");
        reveal_strlit("doc");
        reveal_strlit("docx");
        reveal_strlit("rtf");
        assert(x.len() == 2);
        assert(x[0] == 'p');
        assert(x[1] == 'y');
        assert(!(x == "jpg"@ || x == "jpeg"@ || x == "png"@ || x == "gif"@ || x == "webp"@ || x == "bmp"@ || x == "svg"@ || x == "md"@ || x == "txt"@ || x == "pdf"@ || x == "doc"@ || x == "docx"@ || x == "rtf"@));
    }
    if x == "go"@ {
        reveal_strlit("go");
        reveal_strlit("jpg");
        reveal_strlit("jpeg");
        reveal_strlit("png");
        reveal_strlit("gif");
        reveal_strlit("webp");
        reveal_strlit("bmp");
        reveal_strlit("svg");
        reveal_strlit("md");
        reveal_strlit("txt");
        reveal_strlit("pdf");
        reveal_strlit("doc");
        reveal_strlit("docx");
        reveal_strlit("rtf");
        assert(x.len() == 2);
        assert(x[0] == 'g');
        assert(x[1] == 'o');
        assert(!(x == "jpg"@ || x == "jpeg"@ || x == "png"@ || x == "gif"@ || x == "webp"@ || x == "bmp"@ || x == "svg"@ || x == "md"@ || x == "txt"@ || x == "pdf"@ || x == "doc"@ || x == "docx"@ || x == "rtf"@));
    }
    if x == "json"@ {
        reveal_strlit("json");
        reveal_strlit("jpg");
        reveal_strlit("jpeg");
        reveal_strlit("png");
        reveal_strlit("gif");
        reveal_strlit("webp");
        reveal_strlit("bmp");
        reveal_strlit("svg");
        reveal_strlit("md");
        reveal_strlit("txt");
        reveal_strlit("pdf");
        reveal_strlit("doc");
        reveal_strlit("docx");
        reveal_strlit("rtf");
        assert(x.len() == 4);
        assert(x[0] == 'j');
        assert(x[1] == 's');
        assert(x[2] == 'o');
        assert(x[3] == 'n');
        assert(!(x == "jpg"@ || x == "jpeg"@ || x == "png"@ || x == "gif"@ || x == "webp"@ || x == "bmp"@ || x == "svg"@ || x == "md"@ || x == "txt"@ || x == "pdf"@ || x == "doc"@ || x == "docx"@ || x == "rtf"@));
    }
    if x == "toml"@ {
        reveal_strlit("toml");
        reveal_strlit("jpg");
        reveal_strlit("jpeg");
        reveal_strlit("png");
        reveal_strlit("gif");
        reveal_strlit("webp");
        reveal_strlit("bmp");
        reveal_strlit("svg");
        reveal_strlit("md");
        reveal_strlit("txt");
        reveal_strlit("pdf");
        reveal_strlit("doc");
        reveal_strlit("docx");
        reveal_strlit("rtf");
        assert(x.len() == 4);
        assert(x[0] == 't');
        assert(x[1] == 'o');
        assert(x[2] == 'm');
        assert(x[3] == 'l');
        assert(!(x == "jpg"@ || x == "jpeg"@ || x == "png"@ || x == "gif"@ || x == "webp"@ || x == "bmp"@ || x == "svg"@ || x == "md"@ || x == "txt"@ || x == "pdf"@ || x == "doc"@ || x == "docx"@ || x == "rtf"@));
    }
    if x == "yaml"@ {
        reveal_strlit("yaml");
        reveal_strlit("jpg");
        reveal_strlit("jpeg");
        reveal_strlit("png");
        reveal_strlit("gif");
        reveal_strlit("webp");
        reveal_strlit("bmp");
        reveal_strlit("svg");
        reveal_strlit("md");
        reveal_strlit("txt");
        reveal_strlit("pdf");
        reveal_strlit("doc");
        reveal_strlit("docx");
        reveal_strlit("rtf");
        assert(x.len() == 4);
        assert(x[0] == 'y');
        assert(x[1] == 'a');
        assert(x[2] == 'm');
        assert(x[3] == 'l');
        assert(!(x == "jpg"@ || x == "jpeg"@ || x == "png"@ || x == "gif"@ || x == "webp"@ || x == "bmp"@ || x == "svg"@ || x == "md"@ || x == "txt"@ || x == "pdf"@ || x == "doc"@ || x == "docx"@ || x == "rtf"@));
    }
    if x == "yml"@ {
        reveal_strlit("yml");
        reveal_strlit("jpg");
        reveal_strlit("jpeg");
        reveal_strlit("png");
        reveal_strlit("gif");
        reveal_strlit("webp");
        reveal_strlit("bmp");
        reveal_strlit("svg");
        reveal_strlit("md");
        reveal_strlit("txt");
        reveal_strlit("pdf");
        reveal_strlit("doc");
        reveal_strlit("docx");
        reveal_strlit("rtf");
        assert(x.len() == 3);
        assert(x[0] == 'y');
        assert(x[1] == 'm');
        assert(x[2] == 'l');
        assert(!(x == "jpg"@ || x == "jpeg"@ || x == "png"@ || x == "gif"@ || x == "webp"@ || x == "bmp"@ || x == "svg"@ || x == "md"@ || x == "txt"@ || x == "pdf"@ || x == "doc"@ || x == "docx"@ || x == "rtf"@));
    }
    if x == "mp3"@ {
        reveal_strlit("mp3");
        reveal_strlit("jpg");
        reveal_strlit("jpeg");
        reveal_strlit("png");
        reveal_strlit("gif");
        reveal_strlit("webp");
        reveal_strlit("bmp");
        reveal_strlit("svg");
        reveal_strlit("md");
        reveal_strlit("txt");
        reveal_strlit("pdf");
        reveal_strlit("doc");
        reveal_strlit("docx");
        reveal_strlit("rtf");
        reveal_strlit("rs");
        reveal_strlit("ts");
        reveal_strlit("js");
        reveal_strlit("svelte");
        reveal_strlit("py");
        reveal_strlit("go");
        reveal_strlit("json");
        reveal_strlit("toml");
        reveal_strlit("yaml");
        reveal_strlit("yml");
        assert(x.len() == 3);
        assert(x[0] == 'm');
        assert(x[1] == 'p');
        assert(x[2] == '3');
        assert(!(x == "jpg"@ || x == "jpeg"@ || x == "png"@ || x == "gif"@ || x == "webp"@ || x == "bmp"@ || x == "svg"@ || x == "md"@ || x == "txt"@ || x == "pdf"@ || x == "doc"@ || x == "docx"@ || x == "rtf"@ || x == "rs"@ || x == "ts"@ || x == "js"@ || x == "svelte"@ || x == "py"@ || x == "go"@ || x == "json"@ || x == "toml"@ || x == "yaml"@ || x == "yml"@));
    }
    if x == "m4a"@ {
        reveal_strlit("m4a");
        reveal_strlit("jpg");
        reveal_strlit("jpeg");
        reveal_strlit("png");
        reveal_strlit("gif");
        reveal_strlit("webp");
        reveal_strlit("bmp");
        reveal_strlit("svg");
        reveal_strlit("md");
        reveal_strlit("txt");
        reveal_strlit("pdf");
        reveal_strlit("doc");
        reveal_strlit("docx");
        reveal_strlit("rtf");
        reveal_strlit("rs");
        reveal_strlit("ts");
        reveal_strlit("js");
        reveal_strlit("svelte");
        reveal_strlit("py");
        reveal_strlit("go");
        reveal_strlit("json");
        reveal_strlit("toml");
        reveal_strlit("yaml");
        reveal_strlit("yml");
        assert(x.len() == 3);
        assert(x[0] == 'm');
        assert(x[1] == '4');
        assert(x[2] == 'a');
        assert(!(x == "jpg"@ || x == "jpeg"@ || x == "png"@ || x == "gif"@ || x == "webp"@ || x == "bmp"@ || x == "svg"@ || x == "md"@ || x == "txt"@ || x == "pdf"@ || x == "doc"@ || x == "docx"@ || x == "rtf"@ || x == "rs"@ || x == "ts"@ || x == "js"@ || x == "svelte"@ || x == "py"@ || x == "go"@ || x == "json"@ || x == "toml"@ || x == "yaml"@ || x == "yml"@));
    }
    if x == "wav"@ {
        reveal_strlit("wav");
        reveal_strlit("jpg");
        reveal_strlit("jpeg");
        reveal_strlit("png");
        reveal_strlit("gif");
        reveal_strlit("webp");
        reveal_strlit("bmp");
        reveal_strlit("svg");
        reveal_strlit("md");
        reveal_strlit("txt");
        reveal_strlit("pdf");
        reveal_strlit("doc");
        reveal_strlit("docx");
        reveal_strlit("rtf");
        reveal_strlit("rs");
        reveal_strlit("ts");
        reveal_strlit("js");
        reveal_strlit("svelte");
        reveal_strlit("py");
        reveal_strlit("go");
        reveal_strlit("json");
        reveal_strlit("toml");
        reveal_strlit("yaml");
        reveal_strlit("yml");
        assert(x.len() == 3);
        assert(x[0] == 'w');
        assert(x[1] == 'a');
        assert(x[2] == 'v');
        assert(!(x == "jpg"@ || x == "jpeg"@ || x == "png"@ || x == "gif"@ || x == "webp"@ || x == "bmp"@ || x == "svg"@ || x == "md"@ || x == "txt"@ || x == "pdf"@ || x == "doc"@ || x == "docx"@ || x == "rtf"@ || x == "rs"@ || x == "ts"@ || x == "js"@ || x == "svelte"@ || x == "py"@ || x == "go"@ || x == "json"@ || x == "toml"@ || x == "yaml"@ || x == "yml"@));
    }
    if x == "flac"@ {
        reveal_strlit("flac");
        reveal_strlit("jpg");
        reveal_strlit("jpeg");
        reveal_strlit("png");
        reveal_strlit("gif");
        reveal_strlit("webp");
        reveal_strlit("bmp");
        reveal_strlit("svg");
        reveal_strlit("md");
        reveal_strlit("txt");
        reveal_strlit("pdf");
        reveal_strlit("doc");
        reveal_strlit("docx");
        reveal_strlit("rtf");
        reveal_strlit("rs");
        reveal_strlit("ts");
        reveal_strlit("js");
        reveal_strlit("svelte");
        reveal_strlit("py");
        reveal_strlit("go");
        reveal_strlit("json");
        reveal_strlit("toml");
        reveal_strlit("yaml");
        reveal_strlit("yml");
        assert(x.len() == 4);
        assert(x[0] == 'f');
        assert(x[1] == 'l');
        assert(x[2] == 'a');
        assert(x[3] == 'c');
        assert(!(x == "jpg"@ || x == "jpeg"@ || x == "png"@ || x == "gif"@ || x == "webp"@ || x == "bmp"@ || x == "svg"@ || x == "md"@ || x == "txt"@ || x == "pdf"@ || x == "doc"@ || x == "docx"@ || x == "rtf"@ || x == "rs"@ || x == "ts"@ || x == "js"@ || x == "svelte"@ || x == "py"@ || x == "go"@ || x == "json"@ || x == "toml"@ || x == "yaml"@ || x == "yml"@));
    }
    if x == "ogg"@ {
        reveal_strlit("ogg");
        reveal_strlit("jpg");
        reveal_strlit("jpeg");
        reveal_strlit("png");
        reveal_strlit("gif");
        reveal_strlit("webp");
        reveal_strlit("bmp");
        reveal_strlit("svg");
        reveal_strlit("md");
        reveal_strlit("txt");
        reveal_strlit("pdf");
        reveal_strlit("doc");
        reveal_strlit("docx");
        reveal_strlit("rtf");
        reveal_strlit("rs");
        reveal_strlit("ts");
        reveal_strlit("js");
        reveal_strlit("svelte");
        reveal_strlit("py");
        reveal_strlit("go");
        reveal_strlit("json");
        reveal_strlit("toml");
        reveal_strlit("yaml");
        reveal_strlit("yml");
        assert(x.len() == 3);
        assert(x[0] == 'o');
        assert(x[1] == 'g');
        assert(x[2] == 'g');
        assert(!(x == "jpg"@ || x == "jpeg"@ || x == "png"@ || x == "gif"@ || x == "webp"@ || x == "bmp"@ || x == "svg"@ || x == "md"@ || x == "txt"@ || x == "pdf"@ || x == "doc"@ || x == "docx"@ || x == "rtf"@ || x == "rs"@ || x == "ts"@ || x == "js"@ || x == "svelte"@ || x == "py"@ || x == "go"@ || x == "json"@ || x == "toml"@ || x == "yaml"@ || x == "yml"@));
    }
    if x == "mp4"@ {
        reveal_strlit("mp4");
        reveal_strlit("jpg");
        reveal_strlit("jpeg");
        reveal_strlit("png");
        reveal_strlit("gif");
        reveal_strlit("webp");
        reveal_strlit("bmp");
        reveal_strlit("svg");
        reveal_strlit("md");
        reveal_strlit("txt");
        reveal_strlit("pdf");
        reveal_strlit("doc");
        reveal_strlit("docx");
        reveal_strlit("rtf");
        reveal_strlit("rs");
        reveal_strlit("ts");
        reveal_strlit("js");
        reveal_strlit("svelte");
        reveal_strlit("py");
        reveal_strlit("go");
        reveal_strlit("json");
        reveal_strlit("toml");
        reveal_strlit("yaml");
        reveal_strlit("yml");
        reveal_strlit("mp3");
        reveal_strlit("m4a");
        reveal_strlit("wav");
        reveal_strlit("flac");
        reveal_strlit("ogg");
        assert(x.len() == 3);
        assert(x[0] == 'm');
        assert(x[1] == 'p');
        assert(x[2] == '4');
        assert(!(x == "jpg"@ || x == "jpeg"@ || x == "png"@ || x == "gif"@ || x == "webp"@ || x == "bmp"@ || x == "svg"@ || x == "md"@ || x == "txt"@ || x == "pdf"@ || x == "doc"@ || x == "docx"@ || x == "rtf"@ || x == "rs"@ || x == "ts"@ || x == "js"@ || x == "svelte"@ || x == "py"@ || x == "go"@ || x == "json"@ || x == "toml"@ || x == "yaml"@ || x == "yml"@ || x == "mp3"@ || x == "m4a"@ || x == "wav"@ || x == "flac"@ || x == "ogg"@));
    }
    if x == "mov"@ {
        reveal_strlit("mov");
        reveal_strlit("jpg");
        reveal_strlit("jpeg");
        reveal_strlit("png");
        reveal_strlit("gif");
        reveal_strlit("webp");
        reveal_strlit("bmp");
        reveal_strlit("svg");
        reveal_strlit("md");
        reveal_strlit("txt");
        reveal_strlit("pdf");
        reveal_strlit("doc");
        reveal_strlit("docx");
        reveal_strlit("rtf");
        reveal_strlit("rs");
        reveal_strlit("ts");
        reveal_strlit("js");
        reveal_strlit("svelte");
        reveal_strlit("py");
        reveal_strlit("go");
        reveal_strlit("json");
        reveal_strlit("toml");
        reveal_strlit("yaml");
        reveal_strlit("yml");
        reveal_strlit("mp3");
        reveal_strlit("m4a");
        reveal_strlit("wav");
        reveal_strlit("flac");
        reveal_strlit("ogg");
        assert(x.len() == 3);
        assert(x[0] == 'm');
        assert(x[1] == 'o');
        assert(x[2] == 'v');
        assert(!(x == "jpg"@ || x == "jpeg"@ || x == "png"@ || x == "gif"@ || x == "webp"@ || x == "bmp"@ || x == "svg"@ || x == "md"@ || x == "txt"@ || x == "pdf"@ || x == "doc"@ || x == "docx"@ || x == "rtf"@ || x == "rs"@ || x == "ts"@ || x == "js"@ || x == "svelte"@ || x == "py"@ || x == "go"@ || x == "json"@ || x == "toml"@ || x == "yaml"@ || x == "yml"@ || x == "mp3"@ || x == "m4a"@ || x == "wav"@ || x == "flac"@ || x == "ogg"@));
    }
    if x == "mkv"@ {
        reveal_strlit("mkv");
        reveal_strlit("jpg");
        reveal_strlit("jpeg");
        reveal_strlit("png");
        reveal_strlit("gif");
        reveal_strlit("webp");
        reveal_strlit("bmp");
        reveal_strlit("svg");
        reveal_strlit("md");
        reveal_strlit("txt");
        reveal_strlit("pdf");
        reveal_strlit("doc");
        reveal_strlit("docx");
        reveal_strlit("rtf");
        reveal_strlit("rs");
        reveal_strlit("ts");
        reveal_strlit("js");
        reveal_strlit("svelte");
        reveal_strlit("py");
        reveal_strlit("go");
        reveal_strlit("json");
        reveal_strlit("toml");
        reveal_strlit("yaml");
        reveal_strlit("yml");
        reveal_strlit("mp3");
        reveal_strlit("m4a");
        reveal_strlit("wav");
        reveal_strlit("flac");
        reveal_strlit("ogg");
        assert(x.len() == 3);
        assert(x[0] == 'm');
        assert(x[1] == 'k');
        assert(x[2] == 'v');
        assert(!(x == "jpg"@ || x == "jpeg"@ || x == "png"@ || x == "gif"@ || x == "webp"@ || x == "bmp"@ || x == "svg"@ || x == "md"@ || x == "txt"@ || x == "pdf"@ || x == "doc"@ || x == "docx"@ || x == "rtf"@ || x == "rs"@ || x == "ts"@ || x == "js"@ || x == "svelte"@ || x == "py"@ || x == "go"@ || x == "json"@ || x == "toml"@ || x == "yaml"@ || x == "yml"@ || x == "mp3"@ || x == "m4a"@ || x == "wav"@ || x == "flac"@ || x == "ogg"@));
    }
    if x == "webm"@ {
        reveal_strlit("webm");
        reveal_strlit("jpg");
        reveal_strlit("jpeg");
        reveal_strlit("png");
        reveal_strlit("gif");
        reveal_strlit("webp");
        reveal_strlit("bmp");
        reveal_strlit("svg");
        reveal_strlit("md");
        reveal_strlit("txt");
        reveal_strlit("pdf");
        reveal_strlit("doc");
        reveal_strlit("docx");
        reveal_strlit("rtf");
        reveal_strlit("rs");
        reveal_strlit("ts");
        reveal_strlit("js");
        reveal_strlit("svelte");
        reveal_strlit("py");
        reveal_strlit("go");
        reveal_strlit("json");
        reveal_strlit("toml");
        reveal_strlit("yaml");
        reveal_strlit("yml");
        reveal_strlit("mp3");
        reveal_strlit("m4a");
        reveal_strlit("wav");
        reveal_strlit("flac");
        reveal_strlit("ogg");
        assert(x.len() == 4);
        assert(x[0] == 'w');
        assert(x[1] == 'e');
        assert(x[2] == 'b');
        assert(x[3] == 'm');
        assert(!(x == "jpg"@ || x == "jpeg"@ || x == "png"@ || x == "gif"@ || x == "webp"@ || x == "bmp"@ || x == "svg"@ || x == "md"@ || x == "txt"@ || x == "pdf"@ || x == "doc"@ || x == "docx"@ || x == "rtf"@ || x == "rs"@ || x == "ts"@ || x == "js"@ || x == "svelte"@ || x == "py"@ || x == "go"@ || x == "json"@ || x == "toml"@ || x == "yaml"@ || x == "yml"@ || x == "mp3"@ || x == "m4a"@ || x == "wav"@ || x == "flac"@ || x == "ogg"@));
    }
    if x == "avi"@ {
        reveal_strlit("avi");
        reveal_strlit("jpg");
        reveal_strlit("jpeg");
        reveal_strlit("png");
        reveal_strlit("gif");
        reveal_strlit("webp");
        reveal_strlit("bmp");
        reveal_strlit("svg");
        reveal_strlit("md");
        reveal_strlit("txt");
        reveal_strlit("pdf");
        reveal_strlit("doc");
        reveal_strlit("docx");
        reveal_strlit("rtf");
        reveal_strlit("rs");
        reveal_strlit("ts");
        reveal_strlit("js");
        reveal_strlit("svelte");
        reveal_strlit("py");
        reveal_strlit("go");
        reveal_strlit("json");
        reveal_strlit("toml");
        reveal_strlit("yaml");
        reveal_strlit("yml");
        reveal_strlit("mp3");
        reveal_strlit("m4a");
        reveal_strlit("wav");
        reveal_strlit("flac");
        reveal_strlit("ogg");
        assert(x.len() == 3);
        assert(x[0] == 'a');
        assert(x[1] == 'v');
        assert(x[2] == 'i');
        assert(!(x == "jpg"@ || x == "jpeg"@ || x == "png"@ || x == "gif"@ || x == "webp"@ || x == "bmp"@ || x == "svg"@ || x == "md"@ || x == "txt"@ || x == "pdf"@ || x == "doc"@ || x == "docx"@ || x == "rtf"@ || x == "rs"@ || x == "ts"@ || x == "js"@ || x == "svelte"@ || x == "py"@ || x == "go"@ || x == "json"@ || x == "toml"@ || x == "yaml"@ || x == "yml"@ || x == "mp3"@ || x == "m4a"@ || x == "wav"@ || x == "flac"@ || x == "ogg"@));
    }
    if x == "zip"@ {
        reveal_strlit("zip");
        reveal_strlit("jpg");
        reveal_strlit("jpeg");
        reveal_strlit("png");
        reveal_strlit("gif");
        reveal_strlit("webp");
        reveal_strlit("bmp");
        reveal_strlit("svg");
        reveal_strlit("md");
        reveal_strlit("txt");
        reveal_strlit("pdf");
        reveal_strlit("doc");
        reveal_strlit("docx");
        reveal_strlit("rtf");
        reveal_strlit("rs");
        reveal_strlit("ts");
        reveal_strlit("js");
        reveal_strlit("svelte");
        reveal_strlit("py");
        reveal_strlit("go");
        reveal_strlit("json");
        reveal_strlit("toml");
        reveal_strlit("yaml");
        reveal_strlit("yml");
        reveal_strlit("mp3");
        reveal_strlit("m4a");
        reveal_strlit("wav");
        reveal_strlit("flac");
        reveal_strlit("ogg");
        reveal_strlit("mp4");
        reveal_strlit("mov");
        reveal_strlit("mkv");
        reveal_strlit("webm");
        reveal_strlit("avi");
        assert(x.len() == 3);
        assert(x[0] == 'z');
        assert(x[1] == 'i');
        assert(x[2] == 'p');
        assert(!(x == "jpg"@ || x == "jpeg"@ || x == "png"@ || x == "gif"@ || x == "webp"@ || x == "bmp"@ || x == "svg"@ || x == "md"@ || x == "txt"@ || x == "pdf"@ || x == "doc"@ || x == "docx"@ || x == "rtf"@ || x == "rs"@ || x == "ts"@ || x == "js"@ || x == "svelte"@ || x == "py"@ || x == "go"@ || x == "json"@ || x == "toml"@ || x == "yaml"@ || x == "yml"@ || x == "mp3"@ || x == "m4a"@ || x == "wav"@ || x == "flac"@ || x == "ogg"@ || x == "mp4"@ || x == "mov"@ || x == "mkv"@ || x == "webm"@ || x == "avi"@));
    }
    if x == "tar"@ {
        reveal_strlit("tar");
        reveal_strlit("jpg");
        reveal_strlit("jpeg");
        reveal_strlit("png");
        reveal_strlit("gif");
        reveal_strlit("webp");
        reveal_strlit("bmp");
        reveal_strlit("svg");
        reveal_strlit("md");
        reveal_strlit("txt");
        reveal_strlit("pdf");
        reveal_strlit("doc");
        reveal_strlit("docx");
        reveal_strlit("rtf");
        reveal_strlit("rs");
        reveal_strlit("ts");
        reveal_strlit("js");
        reveal_strlit("svelte");
        reveal_strlit("py");
        reveal_strlit("go");
        reveal_strlit("json");
        reveal_strlit("toml");
        reveal_strlit("yaml");
        reveal_strlit("yml");
        reveal_strlit("mp3");
        reveal_strlit("m4a");
        reveal_strlit("wav");
        reveal_strlit("flac");
        reveal_strlit("ogg");
        reveal_strlit("mp4");
        reveal_strlit("mov");
        reveal_strlit("mkv");
        reveal_strlit("webm");
        reveal_strlit("avi");
        assert(x.len() == 3);
        assert(x[0] == 't');
        assert(x[1] == 'a');
        assert(x[2] == 'r');
        assert(!(x == "jpg"@ || x == "jpeg"@ || x == "png"@ || x == "gif"@ || x == "webp"@ || x == "bmp"@ || x == "svg"@ || x == "md"@ || x == "txt"@ || x == "pdf"@ || x == "doc"@ || x == "docx"@ || x == "rtf"@ || x == "rs"@ || x == "ts"@ || x == "js"@ || x == "svelte"@ || x == "py"@ || x == "go"@ || x == "json"@ || x == "toml"@ || x == "yaml"@ || x == "yml"@ || x == "mp3"@ || x == "m4a"@ || x == "wav"@ || x == "flac"@ || x == "ogg"@ || x == "mp4"@ || x == "mov"@ || x == "mkv"@ || x == "webm"@ || x == "avi"@));
    }
    if x == "gz"@ {
        reveal_strlit("gz");
        reveal_strlit("jpg");
        reveal_strlit("jpeg");
        reveal_strlit("png");
        reveal_strlit("gif");
        reveal_strlit("webp");
        reveal_strlit("bmp");
        reveal_strlit("svg");
        reveal_strlit("md");
        reveal_strlit("txt");
        reveal_strlit("pdf");
        reveal_strlit("doc");
        reveal_strlit("docx");
        reveal_strlit("rtf");
        reveal_strlit("rs");
        reveal_strlit("ts");
        reveal_strlit("js");
        reveal_strlit("svelte");
        reveal_strlit("py");
        reveal_strlit("go");
        reveal_strlit("json");
        reveal_strlit("toml");
        reveal_strlit("yaml");
        reveal_strlit("yml");
        reveal_strlit("mp3");
        reveal_strlit("m4a");
        reveal_strlit("wav");
        reveal_strlit("flac");
        reveal_strlit("ogg");
        reveal_strlit("mp4");
        reveal_strlit("mov");
        reveal_strlit("mkv");
        reveal_strlit("webm");
        reveal_strlit("avi");
        assert(x.len() == 2);
        assert(x[0] == 'g');
        assert(x[1] == 'z');
        assert(!(x == "jpg"@ || x == "jpeg"@ || x == "png"@ || x == "gif"@ || x == "webp"@ || x == "bmp"@ || x == "svg"@ || x == "md"@ || x == "txt"@ || x == "pdf"@ || x == "doc"@ || x == "docx"@ || x == "rtf"@ || x == "rs"@ || x == "ts"@ || x == "js"@ || x == "svelte"@ || x == "py"@ || x == "go"@ || x == "json"@ || x == "toml"@ || x == "yaml"@ || x == "yml"@ || x == "mp3"@ || x == "m4a"@ || x == "wav"@ || x == "flac"@ || x == "ogg"@ || x == "mp4"@ || x == "mov"@ || x == "mkv"@ || x == "webm"@ || x == "avi"@));
    }
    if x == "xz"@ {
        reveal_strlit("xz");
        reveal_strlit("jpg");
        reveal_strlit("jpeg");
        reveal_strlit("png");
        reveal_strlit("gif");
        reveal_strlit("webp");
        reveal_strlit("bmp");
        reveal_strlit("svg");
        reveal_strlit("md");
        reveal_strlit("txt");
        reveal_strlit("pdf");
        reveal_strlit("doc");
        reveal_strlit("docx");
        reveal_strlit("rtf");
        reveal_strlit("rs");
        reveal_strlit("ts");
        reveal_strlit("js");
        reveal_strlit("svelte");
        reveal_strlit("py");
        reveal_strlit("go");
        reveal_strlit("json");
        reveal_strlit("toml");
        reveal_strlit("yaml");
        reveal_strlit("yml");
        reveal_strlit("mp3");
        reveal_strlit("m4a");
        reveal_strlit("wav");
        reveal_strlit("flac");
        reveal_strlit("ogg");
        reveal_strlit("mp4");
        reveal_strlit("mov");
        reveal_strlit("mkv");
        reveal_strlit("webm");
        reveal_strlit("avi");
        assert(x.len() == 2);
        assert(x[0] == 'x');
        assert(x[1] == 'z');
        assert(!(x == "jpg"@ || x == "jpeg"@ || x == "png"@ || x == "gif"@ || x == "webp"@ || x == "bmp"@ || x == "svg"@ || x == "md"@ || x == "txt"@ || x == "pdf"@ || x == "doc"@ || x == "docx"@ || x == "rtf"@ || x == "rs"@ || x == "ts"@ || x == "js"@ || x == "svelte"@ || x == "py"@ || x == "go"@ || x == "json"@ || x == "toml"@ || x == "yaml"@ || x == "yml"@ || x == "mp3"@ || x == "m4a"@ || x == "wav"@ || x == "flac"@ || x == "ogg"@ || x == "mp4"@ || x == "mov"@ || x == "mkv"@ || x == "webm"@ || x == "avi"@));
    }
    if x == "zst"@ {
        reveal_strlit("zst");
        reveal_strlit("jpg");
        reveal_strlit("jpeg");
        reveal_strlit("png");
        reveal_strlit("gif");
        reveal_strlit("webp");
        reveal_strlit("bmp");
        reveal_strlit("svg");
        reveal_strlit("md");
        reveal_strlit("txt");
        reveal_strlit("pdf");
        reveal_strlit("doc");
        reveal_strlit("docx");
        reveal_strlit("rtf");
        reveal_strlit("rs");
        reveal_strlit("ts");
        reveal_strlit("js");
        reveal_strlit("svelte");
        reveal_strlit("py");
        reveal_strlit("go");
        reveal_strlit("json");
        reveal_strlit("toml");
        reveal_strlit("yaml");
        reveal_strlit("yml");
        reveal_strlit("mp3");
        reveal_strlit("m4a");
        reveal_strlit("wav");
        reveal_strlit("flac");
        reveal_strlit("ogg");
        reveal_strlit("mp4");
        reveal_strlit("mov");
        reveal_strlit("mkv");
        reveal_strlit("webm");
        reveal_strlit("avi");
        assert(x.len() == 3);
        assert(x[0] == 'z');
        assert(x[1] == 's');
        assert(x[2] == 't');
        assert(!(x == "jpg"@ || x == "jpeg"@ || x == "png"@ || x == "gif"@ || x == "webp"@ || x == "bmp"@ || x == "svg"@ || x == "md"@ || x == "txt"@ || x == "pdf"@ || x == "doc"@ || x == "docx"@ || x == "rtf"@ || x == "rs"@ || x == "ts"@ || x == "js"@ || x == "svelte"@ || x == "py"@ || x == "go"@ || x == "json"@ || x == "toml"@ || x == "yaml"@ || x == "yml"@ || x == "mp3"@ || x == "m4a"@ || x == "wav"@ || x == "flac"@ || x == "ogg"@ || x == "mp4"@ || x == "mov"@ || x == "mkv"@ || x == "webm"@ || x == "avi"@));
    }
    if x == "7z"@ {
        reveal_strlit("7z");
        reveal_strlit("jpg");
        reveal_strlit("jpeg");
        reveal_strlit("png");
        reveal_strlit("gif");
        reveal_strlit("webp");
        reveal_strlit("bmp");
        reveal_strlit("svg");
        reveal_strlit("md");
        reveal_strlit("txt");
        reveal_strlit("pdf");
        reveal_strlit("doc");
        reveal_strlit("docx");
        reveal_strlit("rtf");
        reveal_strlit("rs");
        reveal_strlit("ts");
        reveal_strlit("js");
        reveal_strlit("svelte");
        reveal_strlit("py");
        reveal_strlit("go");
        reveal_strlit("json");
        reveal_strlit("toml");
        reveal_strlit("yaml");
        reveal_strlit("yml");
        reveal_strlit("mp3");
        reveal_strlit("m4a");
        reveal_strlit("wav");
        reveal_strlit("flac");
        reveal_strlit("ogg");
        reveal_strlit("mp4");
        reveal_strlit("mov");
        reveal_strlit("mkv");
        reveal_strlit("webm");
        reveal_strlit("avi");
        assert(x.len() == 2);
        assert(x[0] == '7');
        assert(x[1] == 'z');
        assert(!(x == "jpg"@ || x == "jpeg"@ || x == "png"@ || x == "gif"@ || x == "webp"@ || x == "bmp"@ || x == "svg"@ || x == "md"@ || x == "txt"@ || x == "pdf"@ || x == "doc"@ || x == "docx"@ || x == "rtf"@ || x == "rs"@ || x == "ts"@ || x == "js"@ || x == "svelte"@ || x == "py"@ || x == "go"@ || x == "json"@ || x == "toml"@ || x == "yaml"@ || x == "yml"@ || x == "mp3"@ || x == "m4a"@ || x == "wav"@ || x == "flac"@ || x == "ogg"@ || x == "mp4"@ || x == "mov"@ || x == "mkv"@ || x == "webm"@ || x == "avi"@));
    }
    if x == "rar"@ {
        reveal_strlit("rar");
        reveal_strlit("jpg");
        reveal_strlit("jpeg");
        reveal_strlit("png");
        reveal_strlit("gif");
        reveal_strlit("webp");
        reveal_strlit("bmp");
        reveal_strlit("svg");
        reveal_strlit("md");
        reveal_strlit("txt");
        reveal_strlit("pdf");
        reveal_strlit("doc");
        reveal_strlit("docx");
        reveal_strlit("rtf");
        reveal_strlit("rs");
        reveal_strlit("ts");
        reveal_strlit("js");
        reveal_strlit("svelte");
        reveal_strlit("py");
        reveal_strlit("go");
        reveal_strlit("json");
        reveal_strlit("toml");
        reveal_strlit("yaml");
        reveal_strlit("yml");
        reveal_strlit("mp3");
        reveal_strlit("m4a");
        reveal_strlit("wav");
        reveal_strlit("flac");
        reveal_strlit("ogg");
        reveal_strlit("mp4");
        reveal_strlit("mov");
        reveal_strlit("mkv");
        reveal_strlit("webm");
        reveal_strlit("avi");
        assert(x.len() == 3);
        assert(x[0] == 'r');
        assert(x[1] == 'a');
        assert(x[2] == 'r');
        assert(!(x == "jpg"@ || x == "jpeg"@ || x == "png"@ || x == "gif"@ || x == "webp"@ || x == "bmp"@ || x == "svg"@ || x == "md"@ || x == "txt"@ || x == "pdf"@ || x == "doc"@ || x == "docx"@ || x == "rtf"@ || x == "rs"@ || x == "ts"@ || x == "js"@ || x == "svelte"@ || x == "py"@ || x == "go"@ || x == "json"@ || x == "toml"@ || x == "yaml"@ || x == "yml"@ || x == "mp3"@ || x == "m4a"@ || x == "wav"@ || x == "flac"@ || x == "ogg"@ || x == "mp4"@ || x == "mov"@ || x == "mkv"@ || x == "webm"@ || x == "avi"@));
    }
}

/// The remote content kinds: an extension, in any ASCII case, has the kind of the table
/// that lists it, and every other extension, or none, is "other".
pub proof fn lemma_remote_extension_kinds(e: Seq<char>)
    ensures
        (ascii_lower_seq(e) == "jpg"@ || ascii_lower_seq(e) == "jpeg"@ || ascii_lower_seq(e) == "png"@ || ascii_lower_seq(e) == "gif"@ || ascii_lower_seq(e) == "webp"@ || ascii_lower_seq(e) == "bmp"@ || ascii_lower_seq(e) == "svg"@) ==> remote_kind_of_extension(lowered(Some(e))) == "image"@,
        (ascii_lower_seq(e) == "md"@ || ascii_lower_seq(e) == "txt"@ || ascii_lower_seq(e) == "pdf"@ || ascii_lower_seq(e) == "doc"@ || ascii_lower_seq(e) == "docx"@ || ascii_lower_seq(e) == "rtf"@) ==> remote_kind_of_extension(lowered(Some(e))) == "document"@,
        (ascii_lower_seq(e) == "rs"@ || ascii_lower_seq(e) == "ts"@ || ascii_lower_seq(e) == "js"@ || ascii_lower_seq(e) == "svelte"@ || ascii_lower_seq(e) == "py"@ || ascii_lower_seq(e) == "go"@ || ascii_lower_seq(e) == "json"@ || ascii_lower_seq(e) == "toml"@ || ascii_lower_seq(e) == "yaml"@ || ascii_lower_seq(e) == "yml"@) ==> remote_kind_of_extension(lowered(Some(e))) == "code"@,
        (ascii_lower_seq(e) == "mp3"@ || ascii_lower_seq(e) == "m4a"@ || ascii_lower_seq(e) == "wav"@ || ascii_lower_seq(e) == "flac"@ || ascii_lower_seq(e) == "ogg"@) ==> remote_kind_of_extension(lowered(Some(e))) == "audio"@,
        (ascii_lower_seq(e) == "mp4"@ || ascii_lower_seq(e) == "mov"@ || ascii_lower_seq(e) == "mkv"@ || ascii_lower_seq(e) == "webm"@ || ascii_lower_seq(e) == "avi"@) ==> remote_kind_of_extension(lowered(Some(e))) == "video"@,
        (ascii_lower_seq(e) == "zip"@ || ascii_lower_seq(e) == "tar"@ || ascii_lower_seq(e) == "gz"@ || ascii_lower_seq(e) == "xz"@ || ascii_lower_seq(e) == "zst"@ || ascii_lower_seq(e) == "7z"@ || ascii_lower_seq(e) == "rar"@) ==> remote_kind_of_extension(lowered(Some(e))) == "archive"@,
        !(ascii_lower_seq(e) == "jpg"@ || ascii_lower_seq(e) == "jpeg"@ || ascii_lower_seq(e) == "png"@ || ascii_lower_seq(e) == "gif"@ || ascii_lower_seq(e) == "webp"@ || ascii_lower_seq(e) == "bmp"@ || ascii_lower_seq(e) == "svg"@ || ascii_lower_seq(e) == "md"@ || ascii_lower_seq(e) == "txt"@ || ascii_lower_seq(e) == "pdf"@ || ascii_lower_seq(e) == "doc"@ || ascii_lower_seq(e) == "docx"@ || ascii_lower_seq(e) == "rtf"@ || ascii_lower_seq(e) == "rs"@ || ascii_lower_seq(e) == "ts"@ || ascii_lower_seq(e) == "js"@ || ascii_lower_seq(e) == "svelte"@ || ascii_lower_seq(e) == "py"@ || ascii_lower_seq(e) == "go"@ || ascii_lower_seq(e) == "json"@ || ascii_lower_seq(e) == "toml"@ || ascii_lower_seq(e) == "yaml"@ || ascii_lower_seq(e) == "yml"@ || ascii_lower_seq(e) == "mp3"@ || ascii_lower_seq(e) == "m4a"@ || ascii_lower_seq(e) == "wav"@ || ascii_lower_seq(e) == "flac"@ || ascii_lower_seq(e) == "ogg"@ || ascii_lower_seq(e) == "mp4"@ || ascii_lower_seq(e) == "mov"@ || ascii_lower_seq(e) == "mkv"@ || ascii_lower_seq(e) == "webm"@ || ascii_lower_seq(e) == "avi"@ || ascii_lower_seq(e) == "zip"@ || ascii_lower_seq(e) == "tar"@ || ascii_lower_seq(e) == "gz"@ || ascii_lower_seq(e) == "xz"@ || ascii_lower_seq(e) == "zst"@ || ascii_lower_seq(e) == "7z"@ || ascii_lower_seq(e) == "rar"@) ==> remote_kind_of_extension(lowered(Some(e))) == "other"@,
        remote_kind_of_extension(None) == "other"@,
{
    lemma_remote_tables_disjoint(ascii_lower_seq(e));
    lemma_remote_table_members(ascii_lower_seq(e));
}

} // verus!
