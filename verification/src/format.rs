use vstd::prelude::*;

verus! {

/// The encodings offered for a captured image.
#[derive(Clone, Copy, PartialEq, Eq, Structural, Debug)]
pub enum Format {
    Png,
    Jpg,
    Pnm,
    Tga,
    Qoi,
    Tiff,
    Bmp,
    Gif,
    Webp,
}

/// The file extension (with its leading dot) that belongs to a format.
pub open spec fn extension(f: Format) -> Seq<char> {
    match f {
        Format::Png => seq!['.', 'p', 'n', 'g'],
        Format::Jpg => seq!['.', 'j', 'p', 'g'],
        Format::Pnm => seq!['.', 'p', 'n', 'm'],
        Format::Tga => seq!['.', 't', 'g', 'a'],
        Format::Qoi => seq!['.', 'q', 'o', 'i'],
        Format::Tiff => seq!['.', 't', 'i', 'f', 'f'],
        Format::Bmp => seq!['.', 'b', 'm', 'p'],
        Format::Gif => seq!['.', 'g', 'i', 'f'],
        Format::Webp => seq!['.', 'w', 'e', 'b', 'p'],
    }
}

impl Format {
    /// The extension of this format, such as `.png`.
    pub fn to_string(&self) -> (s: String)
        ensures
            s@ == extension(*self),
    {
        match self {
            Format::Jpg => {
                let s = String::from_str(".jpg");
                proof { reveal_strlit(".jpg"); }
                s
            },
            Format::Png => {
                let s = String::from_str(".png");
                proof { reveal_strlit(".png"); }
                s
            },
            Format::Pnm => {
                let s = String::from_str(".pnm");
                proof { reveal_strlit(".pnm"); }
                s
            },
            Format::Tga => {
                let s = String::from_str(".tga");
                proof { reveal_strlit(".tga"); }
                s
            },
            Format::Qoi => {
                let s = String::from_str(".qoi");
                proof { reveal_strlit(".qoi"); }
                s
            },
            Format::Tiff => {
                let s = String::from_str(".tiff");
                proof { reveal_strlit(".tiff"); }
                s
            },
            Format::Bmp => {
                let s = String::from_str(".bmp");
                proof { reveal_strlit(".bmp"); }
                s
            },
            Format::Gif => {
                let s = String::from_str(".gif");
                proof { reveal_strlit(".gif"); }
                s
            },
            Format::Webp => {
                let s = String::from_str(".webp");
                proof { reveal_strlit(".webp"); }
                s
            },
        }
    }
}

/// The file name a capture is saved under: its name followed by the
/// extension of its format.
pub fn file_name(name: &str, format: Format) -> (r: String)
    ensures
        r@ == name@ + extension(format),
{
    let r = String::from_str(name);
    let ext = format.to_string();
    r.concat(ext.as_str())
}

/// The path used by a quick save: the folder, a `/`, and the file name.
pub fn save_path(folder: &str, name: &str, format: Format) -> (r: String)
    ensures
        r@ == folder@ + seq!['/'] + name@ + extension(format),
{
    let mut r = String::from_str(folder);
    r.append("/");
    proof { reveal_strlit("/"); }
    r.append(name);
    let ext = format.to_string();
    r.append(ext.as_str());
    r
}

/// The name shown for the current capture: nothing while it has no name,
/// otherwise its file name.
pub fn display_name(name: &str, format: Format) -> (r: String)
    ensures
        r@ == (if name@.len() == 0 { name@ } else { name@ + extension(format) }),
{
    if name.is_empty() {
        String::from_str(name)
    } else {
        file_name(name, format)
    }
}

/// Every format has its own extension, and each extension starts with a dot.
pub proof fn lemma_extensions_distinct(a: Format, b: Format)
    ensures
        extension(a)[0] == '.',
        a != b ==> extension(a) != extension(b),
{
    if a != b && extension(a) == extension(b) {
        // Two equal extensions agree in length and in every character;
        // the second and last characters already tell the formats apart.
        assert(extension(a).len() == extension(b).len());
        assert(extension(a)[1] == extension(b)[1]);
        assert(extension(a)[2] == extension(b)[2]);
        assert(extension(a)[3] == extension(b)[3]);
    }
}

} // verus!
