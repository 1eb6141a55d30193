use vstd::prelude::*;

use crate::llm::{ContentPart, MessageContent, Role};
use crate::text::{copy_opt, decimal, decimal_text, joined, owned};
use crate::types::{BatchInput, DisplayText, ImageData, ImageSource, TextData, TextSource};

verus! {

/// One message kept in an agent's memory.
#[derive(Clone, Debug)]
pub struct MemoryEntry {
    pub role: Role,
    pub content: String,
    /// Display name of the speaker, if one was given.
    pub name: Option<String>,
    /// Avatar of the speaker, if one was given.
    pub avatar: Option<String>,
}

/// What a memory entry holds, as plain values.
pub struct EntryView {
    pub role: Role,
    pub content: Seq<char>,
    pub name: Option<Seq<char>>,
    pub avatar: Option<Seq<char>>,
}

/// The plain value of an optional string.
pub open spec fn opt_view(s: Option<String>) -> Option<Seq<char>> {
    match s {
        Some(t) => Some(t@),
        None => None,
    }
}

impl View for MemoryEntry {
    type V = EntryView;

    open spec fn view(&self) -> EntryView {
        EntryView {
            role: self.role,
            content: self.content@,
            name: opt_view(self.name),
            avatar: opt_view(self.avatar),
        }
    }
}

/// An entry with the given role and text and no display details.
pub open spec fn plain_entry(role: Role, content: Seq<char>) -> EntryView {
    EntryView { role, content, name: None, avatar: None }
}

/// The plain values of a list of entries.
pub open spec fn entries_view(entries: Seq<MemoryEntry>) -> Seq<EntryView> {
    entries.map_values(|e: MemoryEntry| e@)
}

/// The text of a list of parts: its text parts, in order.
pub open spec fn parts_text(parts: Seq<ContentPart>) -> Seq<char>
    decreases parts.len(),
{
    if parts.len() == 0 {
        seq![]
    } else {
        parts_text(parts.drop_last()) + match parts.last() {
            ContentPart::Text(t) => t@,
            ContentPart::ImageUrl(_) => seq![],
        }
    }
}

/// The text that a message contributes to memory.
pub open spec fn content_text(c: MessageContent) -> Seq<char> {
    match c {
        MessageContent::Text(t) => t@,
        MessageContent::Parts(ps) => parts_text(ps@),
    }
}

/// The entry that a message makes, with the display details if given.
pub open spec fn message_entry(
    content: MessageContent,
    role: Role,
    display: Option<DisplayText>,
) -> EntryView {
    EntryView {
        role,
        content: content_text(content),
        name: match display {
            Some(d) => opt_view(d.name),
            None => None,
        },
        avatar: match display {
            Some(d) => opt_view(d.avatar),
            None => None,
        },
    }
}

/// The text of all text parts of `parts`, in order.
pub fn text_of_parts(parts: &Vec<ContentPart>) -> (r: String)
    ensures
        r@ == parts_text(parts@),
{
    let mut text = String::new();
    let mut i: usize = 0;
    while i < parts.len()
        invariant
            i <= parts@.len(),
            text@ == parts_text(parts@.subrange(0, i as int)),
        decreases parts@.len() - i,
    {
        assert(parts@.subrange(0, i + 1).drop_last() =~= parts@.subrange(0, i as int));
        match &parts[i] {
            ContentPart::Text(t) => {
                text.append(t.as_str());
            },
            ContentPart::ImageUrl(_) => {
                assert(text@ + seq![] =~= text@);
            },
        }
        i += 1;
    }
    assert(parts@.subrange(0, parts@.len() as int) =~= parts@);
    text
}

/// The entry that a message makes.
pub fn make_entry(message: &MessageContent, role: Role, display_text: Option<&DisplayText>) -> (r:
    MemoryEntry)
    ensures
        r@ == message_entry(
            *message,
            role,
            match display_text {
                Some(d) => Some(*d),
                None => None,
            },
        ),
{
    let content = match message {
        MessageContent::Text(t) => t.clone(),
        MessageContent::Parts(ps) => text_of_parts(ps),
    };
    let (name, avatar) = match display_text {
        Some(d) => (copy_opt(&d.name), copy_opt(&d.avatar)),
        None => (None, None),
    };
    MemoryEntry { role, content, name, avatar }
}

/// How a text of the turn reads in the prompt.
pub open spec fn text_line(t: TextData) -> Seq<char> {
    match t.source {
        TextSource::Input => t.content@,
        TextSource::Clipboard => "[Clipboard content: "@ + t.content@ + "]"@,
    }
}

/// How an image source is described.
pub open spec fn source_text(s: ImageSource) -> Seq<char> {
    match s {
        ImageSource::Camera => "captured from camera"@,
        ImageSource::Screen => "screenshot"@,
        ImageSource::Clipboard => "from clipboard"@,
        ImageSource::Upload => "uploaded"@,
    }
}

/// The line that announces image `i` (counted from zero).
pub open spec fn image_line(i: nat, img: ImageData) -> Seq<char> {
    "- Image "@ + decimal(i + 1) + " ("@ + source_text(img.source) + ")"@
}

/// The header that precedes the image lines.
pub open spec fn images_header() -> Seq<char> {
    "\nImages in this message:"@
}

/// The lines of a turn's prompt: one per text, then, if images came, a header and one per image.
pub open spec fn prompt_lines(input: BatchInput) -> Seq<Seq<char>> {
    let texts = input.texts@.map_values(|t: TextData| text_line(t));
    match input.images {
        Some(imgs) => texts.push(images_header()) + imgs@.map(
            |i: int, img: ImageData| image_line(i as nat, img),
        ),
        None => texts,
    }
}

/// Lines joined by newlines.
pub open spec fn join_lines(lines: Seq<Seq<char>>) -> Seq<char>
    decreases lines.len(),
{
    if lines.len() == 0 {
        seq![]
    } else if lines.len() == 1 {
        lines[0]
    } else {
        join_lines(lines.drop_last()) + "\n"@ + lines.last()
    }
}

/// The text prompt of a turn.
pub open spec fn text_prompt(input: BatchInput) -> Seq<char> {
    join_lines(prompt_lines(input))
}

fn text_line_of(t: &TextData) -> (r: String)
    ensures
        r@ == text_line(*t),
{
    match t.source {
        TextSource::Input => t.content.clone(),
        TextSource::Clipboard => {
            let head = joined("[Clipboard content: ", t.content.as_str());
            joined(head.as_str(), "]")
        },
    }
}

fn source_desc(s: ImageSource) -> (r: &'static str)
    ensures
        r@ == source_text(s),
{
    match s {
        ImageSource::Camera => "captured from camera",
        ImageSource::Screen => "screenshot",
        ImageSource::Clipboard => "from clipboard",
        ImageSource::Upload => "uploaded",
    }
}

fn image_line_of(i: usize, img: &ImageData) -> (r: String)
    requires
        i < usize::MAX,
    ensures
        r@ == image_line(i as nat, *img),
{
    let num = decimal_text((i + 1) as u64);
    let s = joined("- Image ", num.as_str());
    let s = joined(s.as_str(), " (");
    let s = joined(s.as_str(), source_desc(img.source));
    joined(s.as_str(), ")")
}

/// Appending one more line to a joined text.
proof fn lemma_join_push(lines: Seq<Seq<char>>, line: Seq<char>)
    ensures
        join_lines(lines.push(line)) == if lines.len() == 0 {
            line
        } else {
            join_lines(lines) + "\n"@ + line
        },
{
    assert(lines.push(line).drop_last() =~= lines);
    if lines.len() == 0 {
        assert(lines.push(line)[0] == line);
    }
}

/// Lines joined by newlines.
pub fn join_with_newlines(lines: &Vec<String>) -> (r: String)
    ensures
        r@ == join_lines(lines@.map_values(|s: String| s@)),
{
    let mut out = String::new();
    let mut i: usize = 0;
    while i < lines.len()
        invariant
            i <= lines@.len(),
            out@ == join_lines(lines@.subrange(0, i as int).map_values(|s: String| s@)),
        decreases lines@.len() - i,
    {
        proof {
            let before = lines@.subrange(0, i as int).map_values(|s: String| s@);
            assert(lines@.subrange(0, i + 1).map_values(|s: String| s@) =~= before.push(
                lines@[i as int]@,
            ));
            lemma_join_push(before, lines@[i as int]@);
        }
        if i > 0 {
            out.append("\n");
        }
        out.append(lines[i].as_str());
        i += 1;
    }
    assert(lines@.subrange(0, lines@.len() as int) =~= lines@);
    out
}

/// The text prompt of a turn: its texts, then a note on each image, one per line.
pub fn to_text_prompt(input: &BatchInput) -> (r: String)
    requires
        input.images matches Some(imgs) ==> imgs@.len() < usize::MAX,
    ensures
        r@ == text_prompt(*input),
{
    let mut lines: Vec<String> = Vec::new();
    let mut i: usize = 0;
    while i < input.texts.len()
        invariant
            i <= input.texts@.len(),
            lines@.map_values(|s: String| s@) =~= input.texts@.subrange(0, i as int).map_values(
                |t: TextData| text_line(t),
            ),
        decreases input.texts@.len() - i,
    {
        let ghost prev = lines@;
        let line = text_line_of(&input.texts[i]);
        lines.push(line);
        assert(lines@.map_values(|s: String| s@) =~= prev.map_values(|s: String| s@).push(line@));
        assert(input.texts@.subrange(0, i + 1).map_values(|t: TextData| text_line(t))
            =~= input.texts@.subrange(0, i as int).map_values(|t: TextData| text_line(t)).push(
            text_line(input.texts@[i as int]),
        ));
        i += 1;
    }
    assert(input.texts@.subrange(0, input.texts@.len() as int) =~= input.texts@);
    let ghost texts = input.texts@.map_values(|t: TextData| text_line(t));
    match &input.images {
        Some(imgs) => {
            let ghost prev = lines@;
            let header = owned("\nImages in this message:");
            lines.push(header);
            assert(lines@.map_values(|s: String| s@) =~= prev.map_values(|s: String| s@).push(
                header@,
            ));
            assert(imgs@.subrange(0, 0).map(|k: int, img: ImageData| image_line(k as nat, img))
                =~= seq![]);
            let mut j: usize = 0;
            while j < imgs.len()
                invariant
                    j <= imgs@.len(),
                    imgs@.len() < usize::MAX,
                    lines@.map_values(|s: String| s@) =~= texts.push(images_header())
                        + imgs@.subrange(0, j as int).map(
                        |k: int, img: ImageData| image_line(k as nat, img),
                    ),
                decreases imgs@.len() - j,
            {
                let ghost prev = lines@;
                let line = image_line_of(j, &imgs[j]);
                lines.push(line);
                assert(lines@.map_values(|s: String| s@) =~= prev.map_values(|s: String| s@).push(
                    line@,
                ));
                assert(imgs@.subrange(0, j + 1).map(
                    |k: int, img: ImageData| image_line(k as nat, img),
                ) =~= imgs@.subrange(0, j as int).map(
                    |k: int, img: ImageData| image_line(k as nat, img),
                ).push(image_line(j as nat, imgs@[j as int])));
                j += 1;
            }
            assert(imgs@.subrange(0, imgs@.len() as int) =~= imgs@);
        },
        None => {},
    }
    join_with_newlines(&lines)
}

} // verus!
