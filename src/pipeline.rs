//! The media normalisation and publish pipeline of one approved submission,
//! as a state machine: the caller performs each action and reports the
//! outcome back as an event.
use vstd::prelude::*;
use crate::exif::ExifLoader;
use crate::ids::{uuid_text, uuid_text_of};
use crate::submission::Submission;
use crate::text::{joined, lines_view, push_char, push_text, same_text};

verus! {

/// Files over this many bytes are first scaled down by half.
pub const MAX_RENDITION_BYTES: u64 = 10485760;

/// The longest edge a published rendition may have.
pub const MAX_EDGE: u32 = 4000;

/// The longest edge of a generated thumbnail.
pub const THUMBNAIL_EDGE: u32 = 320;

/// How the original file is handled: HEIC-family files need an external
/// still-image decode; the others are renderable as they are.
#[derive(Clone, Copy, Debug, PartialEq, Eq, Structural)]
pub enum FileType {
    Heic,
    Png,
    Jpeg,
}

/// The type and subtype of a media type, as the mime crate parses them.
pub uninterp spec fn mime_parts_of(s: Seq<char>) -> Option<(Seq<char>, Seq<char>)>;

/// Relies on mime's `FromStr` for `Mime` with `Mime::type_` and
/// `Mime::subtype`: the parts depend on the text alone.
#[verifier::external_body]
pub(crate) fn mime_parts(s: &str) -> (r: Option<(String, String)>)
    ensures
        match r {
            Some((t, st)) => mime_parts_of(s@) == Some((t@, st@)),
            None => mime_parts_of(s@) is None,
        },
{
    match s.parse::<mime::Mime>() {
        Ok(m) => Some((m.type_().as_str().to_string(), m.subtype().as_str().to_string())),
        Err(_) => None,
    }
}

/// The file type for a subtype: `heic` and `heif` are HEIC-family, `png` is
/// PNG, anything else is handled as JPEG.
pub open spec fn file_type_of_subtype(subtype: Seq<char>) -> FileType {
    if subtype == seq!['h', 'e', 'i', 'c'] || subtype == seq!['h', 'e', 'i', 'f'] {
        FileType::Heic
    } else if subtype == seq!['p', 'n', 'g'] {
        FileType::Png
    } else {
        FileType::Jpeg
    }
}

/// The file type for a declared media type.
pub open spec fn file_type_of(mime_type: Option<Seq<char>>) -> FileType {
    match mime_type {
        Some(m) => match mime_parts_of(m) {
            Some((_, st)) => file_type_of_subtype(st),
            None => FileType::Jpeg,
        },
        None => FileType::Jpeg,
    }
}

/// The extension a file of the type is stored under.
pub open spec fn extension_of(t: FileType) -> Seq<char> {
    match t {
        FileType::Heic => seq!['h', 'e', 'i', 'c'],
        FileType::Png => seq!['p', 'n', 'g'],
        FileType::Jpeg => seq!['j', 'p', 'g'],
    }
}

/// The extension of the renditions made from a file of the type.
pub open spec fn rendition_extension_of(t: FileType) -> Seq<char> {
    match t {
        FileType::Png => seq!['p', 'n', 'g'],
        _ => seq!['j', 'p', 'g'],
    }
}

impl FileType {
    /// The file type for a subtype (see `file_type_of_subtype`).
    pub fn from_subtype(subtype: &str) -> (r: FileType)
        ensures
            r == file_type_of_subtype(subtype@),
    {
        proof {
            reveal_strlit("heic");
            reveal_strlit("heif");
            reveal_strlit("png");
            assert("heic"@ =~= seq!['h', 'e', 'i', 'c']);
            assert("heif"@ =~= seq!['h', 'e', 'i', 'f']);
            assert("png"@ =~= seq!['p', 'n', 'g']);
        }
        if same_text(subtype, "heic") || same_text(subtype, "heif") {
            FileType::Heic
        } else if same_text(subtype, "png") {
            FileType::Png
        } else {
            FileType::Jpeg
        }
    }

    /// The file type for a declared media type; an absent or unparsable one is
    /// handled as JPEG.
    pub fn from_mime(mime_type: &Option<String>) -> (r: FileType)
        ensures
            r == file_type_of(crate::text::opt_view(*mime_type)),
    {
        match mime_type {
            Some(m) => match mime_parts(m.as_str()) {
                Some((_, st)) => FileType::from_subtype(st.as_str()),
                None => FileType::Jpeg,
            },
            None => FileType::Jpeg,
        }
    }

    pub fn is_heic(&self) -> (r: bool)
        ensures
            r == (*self == FileType::Heic),
    {
        match self {
            FileType::Heic => true,
            _ => false,
        }
    }

    /// The extension the original is stored under.
    pub fn get_extension(&self) -> (r: String)
        ensures
            r@ == extension_of(*self),
    {
        let mut s = String::new();
        match self {
            FileType::Heic => {
                push_char(&mut s, 'h');
                push_char(&mut s, 'e');
                push_char(&mut s, 'i');
                push_char(&mut s, 'c');
            },
            FileType::Png => {
                push_char(&mut s, 'p');
                push_char(&mut s, 'n');
                push_char(&mut s, 'g');
            },
            FileType::Jpeg => {
                push_char(&mut s, 'j');
                push_char(&mut s, 'p');
                push_char(&mut s, 'g');
            },
        }
        assert(s@ =~= extension_of(*self));
        s
    }

    /// The extension of the renditions made from the original.
    pub fn rendition_extension(&self) -> (r: String)
        ensures
            r@ == rendition_extension_of(*self),
    {
        match self {
            FileType::Png => FileType::Png.get_extension(),
            _ => FileType::Jpeg.get_extension(),
        }
    }
}

/// The scratch files of one pipeline run.
#[derive(Clone, Copy, Debug, PartialEq, Eq, Structural)]
pub enum ScratchFile {
    /// The downloaded original.
    Original,
    /// The working rendition that is scaled and published as a photo.
    Rendition,
    /// The untouched renderable copy sent beside a HEIC original.
    Converted,
    /// The generated thumbnail.
    Thumbnail,
}

/// The scratch path of a file named by `id` with extension `ext`.
pub open spec fn scratch_path(id: u128, ext: Seq<char>) -> Seq<char> {
    "/tmp/"@ + uuid_text_of(id) + seq!['.'] + ext
}

/// Builds the scratch path of a file named by `id` with extension `ext`.
pub fn make_scratch_path(id: u128, ext: &str) -> (r: String)
    ensures
        r@ == scratch_path(id, ext@),
{
    let mut s = String::new();
    push_text(&mut s, "/tmp/");
    let name = uuid_text(id);
    push_text(&mut s, name.as_str());
    push_char(&mut s, '.');
    push_text(&mut s, ext);
    assert(s@ =~= scratch_path(id, ext@));
    s
}

/// The uniquely named scratch paths of one run.
pub struct PhotoToUpload {
    pub doc_path: String,
    pub photo_path: String,
    pub jpeg_path: String,
    pub thumb_path: String,
}

impl PhotoToUpload {
    /// Scratch paths named by four identifiers: the original keeps the
    /// extension of its type; the renditions take `png` or `jpg`; the thumbnail
    /// is a `jpg`.
    pub fn new(file_type: FileType, doc_id: u128, photo_id: u128, jpeg_id: u128, thumb_id: u128) -> (r:
        PhotoToUpload)
        ensures
            r.doc_path@ == scratch_path(doc_id, extension_of(file_type)),
            r.photo_path@ == scratch_path(photo_id, rendition_extension_of(file_type)),
            r.jpeg_path@ == scratch_path(jpeg_id, rendition_extension_of(file_type)),
            r.thumb_path@ == scratch_path(thumb_id, extension_of(FileType::Jpeg)),
    {
        let ext = file_type.get_extension();
        let rext = file_type.rendition_extension();
        let jext = FileType::Jpeg.get_extension();
        PhotoToUpload {
            doc_path: make_scratch_path(doc_id, ext.as_str()),
            photo_path: make_scratch_path(photo_id, rext.as_str()),
            jpeg_path: make_scratch_path(jpeg_id, rext.as_str()),
            thumb_path: make_scratch_path(thumb_id, jext.as_str()),
        }
    }

    pub open spec fn path_of(&self, f: ScratchFile) -> Seq<char> {
        match f {
            ScratchFile::Original => self.doc_path@,
            ScratchFile::Rendition => self.photo_path@,
            ScratchFile::Converted => self.jpeg_path@,
            ScratchFile::Thumbnail => self.thumb_path@,
        }
    }

    /// The path of one scratch file.
    pub fn path(&self, f: ScratchFile) -> (r: &String)
        ensures
            r@ == self.path_of(f),
    {
        match f {
            ScratchFile::Original => &self.doc_path,
            ScratchFile::Rendition => &self.photo_path,
            ScratchFile::Converted => &self.jpeg_path,
            ScratchFile::Thumbnail => &self.thumb_path,
        }
    }
}

/// The longer edge of an image.
pub open spec fn longer(width: u32, height: u32) -> u32 {
    if width >= height {
        width
    } else {
        height
    }
}

/// The size guard: a rendition over `MAX_RENDITION_BYTES` is scaled so that
/// its longer edge becomes half as long (rounded down).
pub open spec fn size_guard(bytes: u64, width: u32, height: u32) -> Option<u32> {
    if bytes > MAX_RENDITION_BYTES {
        Some((longer(width, height) / 2) as u32)
    } else {
        None
    }
}

/// The dimension guard, applied to the longer edge left after the size guard:
/// an edge over `MAX_EDGE` is brought to exactly `MAX_EDGE`.
pub open spec fn dimension_guard(edge: u32) -> Option<u32> {
    if edge > MAX_EDGE {
        Some(MAX_EDGE)
    } else {
        None
    }
}

/// The longer edge once the size guard has run.
pub open spec fn edge_after_size_guard(bytes: u64, width: u32, height: u32) -> u32 {
    match size_guard(bytes, width, height) {
        Some(b) => b,
        None => longer(width, height),
    }
}

/// The longer-edge bounds the rendition is scaled to, in order.
pub open spec fn rendition_bounds_of(bytes: u64, width: u32, height: u32) -> Seq<u32> {
    let first = match size_guard(bytes, width, height) {
        Some(b) => seq![b],
        None => Seq::empty(),
    };
    match dimension_guard(edge_after_size_guard(bytes, width, height)) {
        Some(b) => first.push(b),
        None => first,
    }
}

/// The longer edge of an image.
pub fn longer_edge(width: u32, height: u32) -> (r: u32)
    ensures
        r == longer(width, height),
{
    if width >= height {
        width
    } else {
        height
    }
}

/// The longer-edge bounds a rendition of `bytes` bytes and `width` by `height`
/// pixels is scaled to: first the size guard, then the dimension guard.
pub fn rendition_bounds(bytes: u64, width: u32, height: u32) -> (r: Vec<u32>)
    ensures
        r@ == rendition_bounds_of(bytes, width, height),
{
    let mut r: Vec<u32> = Vec::new();
    let mut edge = longer_edge(width, height);
    if bytes > MAX_RENDITION_BYTES {
        edge = edge / 2;
        r.push(edge);
    }
    if edge > MAX_EDGE {
        r.push(MAX_EDGE);
    }
    assert(r@ =~= rendition_bounds_of(bytes, width, height));
    r
}

/// `a / b` rounded to the nearest integer, halves away from zero.
pub open spec fn round_div(a: nat, b: nat) -> nat {
    (2 * a + b) / (2 * b)
}

/// The dimensions of an image of `width` by `height` pixels scaled, aspect
/// ratio kept, so that its longer edge is exactly `bound`: the other edge is
/// scaled by `bound / longer` and rounded, and never below one pixel.
pub open spec fn scaled_dimensions_of(width: u32, height: u32, bound: u32) -> (u32, u32) {
    let l = longer(width, height) as nat;
    if width >= height {
        let h = round_div(height as nat * bound as nat, l);
        (bound, if h == 0 { 1 } else { h as u32 })
    } else {
        let w = round_div(width as nat * bound as nat, l);
        (if w == 0 { 1 } else { w as u32 }, bound)
    }
}

proof fn lemma_round_div_bounds(a: nat, b: nat, c: nat)
    requires
        b > 0,
        a <= c * b,
    ensures
        round_div(a, b) * b <= a + b,
        a <= round_div(a, b) * b + b,
        round_div(a, b) == 0 ==> 2 * a < b,
        round_div(a, b) <= c,
{
    let q = round_div(a, b);
    let m = (2 * a + b) % (2 * b);
    vstd::arithmetic::div_mod::lemma_fundamental_div_mod((2 * a + b) as int, (2 * b) as int);
    vstd::arithmetic::div_mod::lemma_mod_bound((2 * a + b) as int, (2 * b) as int);
    assert(q * b <= a + b && a <= q * b + b && (q == 0 ==> 2 * a < b) && q <= c) by (nonlinear_arith)
        requires
            (2 * a + b) == (2 * b) * q + m,
            0 <= m < 2 * b,
            b > 0,
            a <= c * b,
    ;
}

/// Scaling keeps the aspect ratio: the longer edge becomes exactly `bound`
/// and the other edge is within one pixel of its exact scaled length.
pub proof fn lemma_scaled_keeps_aspect(width: u32, height: u32, bound: u32)
    requires
        width > 0,
        height > 0,
    ensures
        ({
            let (w, h) = scaled_dimensions_of(width, height, bound);
            &&& width >= height ==> w == bound && h >= 1 && h * width <= height * bound + width
                && height * bound <= h * width + width
            &&& width < height ==> h == bound && w >= 1 && w * height <= width * bound + height
                && width * bound <= w * height + height
        }),
{
    let b = bound as nat;
    if width >= height {
        let (w, a) = (width as nat, height as nat);
        assert(a * b <= b * w) by (nonlinear_arith)
            requires
                a <= w,
        ;
        lemma_round_div_bounds(a * b, w, b);
        let q = round_div(a * b, w);
        let h = scaled_dimensions_of(width, height, bound).1;
        assert(h == if q == 0 { 1 } else { q });
        assert(h * w <= a * b + w && a * b <= h * w + w) by (nonlinear_arith)
            requires
                q * w <= a * b + w,
                a * b <= q * w + w,
                q == 0 ==> 2 * (a * b) < w,
                h == if q == 0 { 1 } else { q },
                w > 0,
        ;
    } else {
        let (w, a) = (height as nat, width as nat);
        assert(a * b <= b * w) by (nonlinear_arith)
            requires
                a <= w,
        ;
        lemma_round_div_bounds(a * b, w, b);
        let q = round_div(a * b, w);
        let h = scaled_dimensions_of(width, height, bound).0;
        assert(h == if q == 0 { 1 } else { q });
        assert(h * w <= a * b + w && a * b <= h * w + w) by (nonlinear_arith)
            requires
                q * w <= a * b + w,
                a * b <= q * w + w,
                q == 0 ==> 2 * (a * b) < w,
                h == if q == 0 { 1 } else { q },
                w > 0,
        ;
    }
}

/// The dimensions after scaling the longer edge to `bound` (see
/// `scaled_dimensions_of`).
pub fn scaled_dimensions(width: u32, height: u32, bound: u32) -> (r: (u32, u32))
    requires
        width > 0,
        height > 0,
    ensures
        r == scaled_dimensions_of(width, height, bound),
        r.0 <= bound || bound == 0,
        r.1 <= bound || bound == 0,
{
    let l = longer_edge(width, height) as u128;
    let short = if width >= height { height } else { width } as u128;
    let b = bound as u128;
    assert(short * b < 0x1_0000_0000_0000_0000) by (nonlinear_arith)
        requires
            short < 0x1_0000_0000,
            b < 0x1_0000_0000,
    ;
    let prod = short * b;
    let scaled = (2 * prod + l) / (2 * l);
    assert(scaled <= b) by (nonlinear_arith)
        requires
            short <= l,
            l > 0,
            prod == short * b,
            scaled == (2 * prod + l) / (2 * l),
    ;
    let e: u32 = if scaled == 0 { 1 } else { scaled as u32 };
    if width >= height {
        (bound, e)
    } else {
        (e, bound)
    }
}

/// Where a run stands.
#[derive(Clone, Copy, Debug, PartialEq, Eq, Structural)]
pub enum Stage {
    Downloading,
    Converting,
    CopyingOriginal,
    CopyingRendition,
    Inspecting,
    Resizing,
    ReadingMetadata,
    Thumbnailing,
    SendingPhoto,
    SendingOriginal,
    Persisting,
    CleaningUp,
    Finished,
}

/// Why a run failed.
#[derive(Clone, Copy, Debug, PartialEq, Eq, Structural)]
pub enum PipelineError {
    /// The original could not be fetched.
    Download,
    /// The external decoder failed.
    Conversion,
    /// A scratch copy, measurement or thumbnail could not be made.
    Rendition,
    /// A message could not be sent.
    Upload,
    /// The published message could not be recorded.
    Persistence,
}

/// How a run ended.
#[derive(Clone, Copy, Debug, PartialEq, Eq, Structural)]
pub enum Outcome {
    /// Still running.
    Pending,
    /// The submission was already approved: nothing was done.
    Skipped,
    /// Published as `message_id` and recorded.
    Published { message_id: i64 },
    /// Stopped by the error; everything written was cleaned up.
    Failed(PipelineError),
}

/// What the caller does next.
#[derive(Clone, Copy, Debug, PartialEq, Eq, Structural)]
pub enum PipelineAction {
    /// Fetch the blob into `Original`.
    Download,
    /// Decode `Original` with the external decoder into a JPEG `Rendition`.
    Convert,
    /// Copy `Original` to `Rendition`.
    CopyOriginal,
    /// Copy `Rendition` to `Converted`.
    CopyRendition,
    /// Report the byte size and dimensions of `Rendition`.
    Inspect,
    /// Scale `Rendition` so that its longer edge is `bound`, and overwrite it.
    Resize { bound: u32 },
    /// Read the EXIF metadata of `Original`.
    ReadMetadata,
    /// Write a thumbnail of `Rendition` bounded by `bound` to `Thumbnail`.
    MakeThumbnail { bound: u32 },
    /// Send `Rendition` as a photo with the run's caption.
    SendPhoto,
    /// Send `Original` (with the thumbnail) and `Converted` as one grouped post.
    SendGroup,
    /// Send `Original` as a document with the thumbnail.
    SendDocument,
    /// Record that the submission was published as `message_id`.
    Persist { message_id: i64 },
    /// Delete every scratch file the run has written.
    Cleanup,
    /// Nothing more; the outcome is final.
    Finish,
}

/// What the caller reports after an action.
pub enum PipelineEvent {
    /// The action succeeded.
    Done,
    /// The action failed.
    Failed,
    /// The rendition's byte size and dimensions.
    Inspected { bytes: u64, width: u32, height: u32 },
    /// The original's metadata; `None` when it has none that can be read.
    Metadata(Option<ExifLoader>),
    /// The photo was sent as message `message_id`.
    Sent { message_id: i64 },
}

/// The state of a run, without its paths and caption.
pub struct RunView {
    pub stage: Stage,
    pub heic: bool,
    pub remote_thumbnail: bool,
    pub submission_id: u128,
    pub pending_bounds: Seq<u32>,
    pub written: Seq<ScratchFile>,
    pub cleaned: bool,
    pub message_id: Option<i64>,
    pub outcome: Outcome,
}

/// The scratch file an action may create or overwrite.
pub open spec fn writes(a: PipelineAction) -> Option<ScratchFile> {
    match a {
        PipelineAction::Download => Some(ScratchFile::Original),
        PipelineAction::Convert => Some(ScratchFile::Rendition),
        PipelineAction::CopyOriginal => Some(ScratchFile::Rendition),
        PipelineAction::CopyRendition => Some(ScratchFile::Converted),
        PipelineAction::Resize { .. } => Some(ScratchFile::Rendition),
        PipelineAction::MakeThumbnail { .. } => Some(ScratchFile::Thumbnail),
        _ => None,
    }
}

/// Stop with `err`: clean up everything written so far.
pub open spec fn fail_with(s: RunView, err: PipelineError) -> (RunView, PipelineAction) {
    (RunView { stage: Stage::CleaningUp, cleaned: true, outcome: Outcome::Failed(err), ..s }, PipelineAction::Cleanup)
}

/// Move to `stage`, perform `a` and record the file it writes.
pub open spec fn go(s: RunView, stage: Stage, a: PipelineAction) -> (RunView, PipelineAction) {
    let written = match writes(a) {
        Some(f) => if s.written.contains(f) {
            s.written
        } else {
            s.written.push(f)
        },
        None => s.written,
    };
    (RunView { stage, written, ..s }, a)
}

/// The step after the rendition has its final size: read the metadata.
pub open spec fn after_scaling(s: RunView) -> (RunView, PipelineAction) {
    if s.pending_bounds.len() > 0 {
        go(
            RunView { pending_bounds: s.pending_bounds.drop_first(), ..s },
            Stage::Resizing,
            PipelineAction::Resize { bound: s.pending_bounds[0] },
        )
    } else {
        go(s, Stage::ReadingMetadata, PipelineAction::ReadMetadata)
    }
}

/// The transition table of a run.
pub open spec fn transition(s: RunView, e: &PipelineEvent) -> (RunView, PipelineAction) {
    match s.stage {
        Stage::Downloading => match e {
            PipelineEvent::Done => if s.heic {
                go(s, Stage::Converting, PipelineAction::Convert)
            } else {
                go(s, Stage::CopyingOriginal, PipelineAction::CopyOriginal)
            },
            _ => fail_with(s, PipelineError::Download),
        },
        Stage::Converting => match e {
            PipelineEvent::Done => go(s, Stage::CopyingRendition, PipelineAction::CopyRendition),
            _ => fail_with(s, PipelineError::Conversion),
        },
        Stage::CopyingOriginal => match e {
            PipelineEvent::Done => go(s, Stage::CopyingRendition, PipelineAction::CopyRendition),
            _ => fail_with(s, PipelineError::Rendition),
        },
        Stage::CopyingRendition => match e {
            PipelineEvent::Done => go(s, Stage::Inspecting, PipelineAction::Inspect),
            _ => fail_with(s, PipelineError::Rendition),
        },
        Stage::Inspecting => match e {
            PipelineEvent::Inspected { bytes, width, height } => after_scaling(
                RunView { pending_bounds: rendition_bounds_of(*bytes, *width, *height), ..s },
            ),
            _ => fail_with(s, PipelineError::Rendition),
        },
        // A failed rescale leaves the rendition as it was; the run goes on.
        Stage::Resizing => after_scaling(s),
        // Missing or unreadable metadata leaves only the attribution line.
        Stage::ReadingMetadata => if s.remote_thumbnail {
            go(s, Stage::SendingPhoto, PipelineAction::SendPhoto)
        } else {
            go(s, Stage::Thumbnailing, PipelineAction::MakeThumbnail { bound: THUMBNAIL_EDGE })
        },
        Stage::Thumbnailing => match e {
            PipelineEvent::Done => go(s, Stage::SendingPhoto, PipelineAction::SendPhoto),
            _ => fail_with(s, PipelineError::Rendition),
        },
        Stage::SendingPhoto => match e {
            PipelineEvent::Sent { message_id } => {
                let s2 = RunView { message_id: Some(*message_id), ..s };
                if s.heic {
                    go(s2, Stage::SendingOriginal, PipelineAction::SendGroup)
                } else {
                    go(s2, Stage::SendingOriginal, PipelineAction::SendDocument)
                }
            },
            _ => fail_with(s, PipelineError::Upload),
        },
        Stage::SendingOriginal => match e {
            PipelineEvent::Done => match s.message_id {
                Some(m) => go(s, Stage::Persisting, PipelineAction::Persist { message_id: m }),
                None => fail_with(s, PipelineError::Upload),
            },
            _ => fail_with(s, PipelineError::Upload),
        },
        Stage::Persisting => match e {
            PipelineEvent::Done => match s.message_id {
                Some(m) => (
                    RunView {
                        stage: Stage::CleaningUp,
                        cleaned: true,
                        outcome: Outcome::Published { message_id: m },
                        ..s
                    },
                    PipelineAction::Cleanup,
                ),
                None => fail_with(s, PipelineError::Persistence),
            },
            _ => fail_with(s, PipelineError::Persistence),
        },
        // A deletion failure is only reported; the run ends either way.
        Stage::CleaningUp => (RunView { stage: Stage::Finished, ..s }, PipelineAction::Finish),
        Stage::Finished => (s, PipelineAction::Finish),
    }
}

/// The first state and action of a run for a submission.
pub open spec fn start_of(approved: bool, heic: bool, remote_thumbnail: bool, id: u128) -> (
    RunView,
    PipelineAction,
) {
    let s = RunView {
        stage: Stage::Downloading,
        heic,
        remote_thumbnail,
        submission_id: id,
        pending_bounds: Seq::empty(),
        written: Seq::empty(),
        cleaned: false,
        message_id: None,
        outcome: Outcome::Pending,
    };
    if approved {
        (RunView { stage: Stage::Finished, outcome: Outcome::Skipped, ..s }, PipelineAction::Finish)
    } else {
        go(s, Stage::Downloading, PipelineAction::Download)
    }
}

/// Every written file is cleaned up before a run ends: a run that has
/// cleaned writes nothing more, and a finished run has cleaned or never wrote.
pub open spec fn cleanup_safe(s: RunView) -> bool {
    &&& (s.stage == Stage::CleaningUp ==> s.cleaned)
    &&& (s.stage == Stage::Finished ==> s.cleaned || s.written.len() == 0)
    &&& (s.cleaned ==> s.stage == Stage::CleaningUp || s.stage == Stage::Finished)
}

/// The caption of a published photo: the metadata lines, then the
/// attribution line.
pub open spec fn caption_of(metadata: Seq<Seq<char>>, author: Seq<char>) -> Seq<char> {
    joined(metadata.push("👤 Автор: "@ + author), seq!['\n'])
}

/// One pipeline run.
pub struct PipelineRun {
    stage: Stage,
    heic: bool,
    submission_id: u128,
    files: PhotoToUpload,
    remote_thumbnail: Option<String>,
    author: String,
    caption: String,
    pending_bounds: Vec<u32>,
    written: Vec<ScratchFile>,
    cleaned: bool,
    message_id: Option<i64>,
    outcome: Outcome,
}

impl View for PipelineRun {
    type V = RunView;

    closed spec fn view(&self) -> RunView {
        RunView {
            stage: self.stage,
            heic: self.heic,
            remote_thumbnail: self.remote_thumbnail is Some,
            submission_id: self.submission_id,
            pending_bounds: self.pending_bounds@,
            written: self.written@,
            cleaned: self.cleaned,
            message_id: self.message_id,
            outcome: self.outcome,
        }
    }
}

/// Whether `f` is among the written files.
fn written_contains(v: &Vec<ScratchFile>, f: ScratchFile) -> (r: bool)
    ensures
        r == v@.contains(f),
{
    let mut i: usize = 0;
    while i < v.len()
        invariant
            i <= v@.len(),
            forall|k: int| 0 <= k < i ==> v@[k] != f,
        decreases v@.len() - i,
    {
        if v[i] == f {
            assert(v@[i as int] == f);
            return true;
        }
        i = i + 1;
    }
    false
}

/// The caption: the metadata lines, then the attribution line, joined by
/// line breaks.
pub fn compose_caption(metadata: Vec<String>, author: &str) -> (r: String)
    ensures
        r@ == caption_of(lines_view(metadata@), author@),
{
    let mut lines = metadata;
    let mut last = String::new();
    push_text(&mut last, "👤 Автор: ");
    push_text(&mut last, author);
    let ghost before = lines@;
    lines.push(last);
    assert(lines_view(lines@) =~= lines_view(before).push("👤 Автор: "@ + author@));
    proof {
        reveal_strlit("\n");
        assert("\n"@ =~= seq!['\n']);
    }
    crate::text::join_lines(&lines, "\n")
}

impl PipelineRun {
    /// The scratch paths of the run.
    pub fn files(&self) -> (r: &PhotoToUpload)
        ensures
            *r == self.files_spec(),
    {
        &self.files
    }

    pub closed spec fn files_spec(&self) -> PhotoToUpload {
        self.files
    }

    pub closed spec fn caption_text(&self) -> Seq<char> {
        self.caption@
    }

    pub closed spec fn author_text(&self) -> Seq<char> {
        self.author@
    }

    pub closed spec fn remote_thumbnail_spec(&self) -> Option<String> {
        self.remote_thumbnail
    }

    /// The caption the photo is sent with.
    pub fn caption(&self) -> (r: &String)
        ensures
            r@ == self.caption_text(),
    {
        &self.caption
    }

    /// The remote thumbnail handle the original came with, if any.
    pub fn remote_thumbnail(&self) -> (r: &Option<String>)
        ensures
            *r == self.remote_thumbnail_spec(),
    {
        &self.remote_thumbnail
    }

    /// The files written so far, each once.
    pub fn written(&self) -> (r: &Vec<ScratchFile>)
        ensures
            r@ == self@.written,
    {
        &self.written
    }

    pub fn submission_id(&self) -> (r: u128)
        ensures
            r == self@.submission_id,
    {
        self.submission_id
    }

    pub fn outcome(&self) -> (r: Outcome)
        ensures
            r == self@.outcome,
    {
        self.outcome
    }

    pub fn stage(&self) -> (r: Stage)
        ensures
            r == self@.stage,
    {
        self.stage
    }

    /// Performs `a`'s bookkeeping: moves to `stage` and records the file `a` writes.
    fn go(&mut self, stage: Stage, a: PipelineAction) -> (r: PipelineAction)
        ensures
            (final(self)@, r) == go(old(self)@, stage, a),
            final(self).files == old(self).files,
            final(self).caption == old(self).caption,
            final(self).author == old(self).author,
            final(self).remote_thumbnail == old(self).remote_thumbnail,
    {
        let f = match a {
            PipelineAction::Download => Some(ScratchFile::Original),
            PipelineAction::Convert => Some(ScratchFile::Rendition),
            PipelineAction::CopyOriginal => Some(ScratchFile::Rendition),
            PipelineAction::CopyRendition => Some(ScratchFile::Converted),
            PipelineAction::Resize { .. } => Some(ScratchFile::Rendition),
            PipelineAction::MakeThumbnail { .. } => Some(ScratchFile::Thumbnail),
            _ => None,
        };
        match f {
            Some(file) => {
                if !written_contains(&self.written, file) {
                    self.written.push(file);
                }
            },
            None => {},
        }
        self.stage = stage;
        a
    }

    fn fail_with(&mut self, err: PipelineError) -> (r: PipelineAction)
        ensures
            (final(self)@, r) == fail_with(old(self)@, err),
            final(self).files == old(self).files,
            final(self).caption == old(self).caption,
            final(self).author == old(self).author,
            final(self).remote_thumbnail == old(self).remote_thumbnail,
    {
        self.stage = Stage::CleaningUp;
        self.cleaned = true;
        self.outcome = Outcome::Failed(err);
        PipelineAction::Cleanup
    }

    fn after_scaling(&mut self) -> (r: PipelineAction)
        ensures
            (final(self)@, r) == after_scaling(old(self)@),
            final(self).files == old(self).files,
            final(self).caption == old(self).caption,
            final(self).author == old(self).author,
            final(self).remote_thumbnail == old(self).remote_thumbnail,
    {
        if self.pending_bounds.len() > 0 {
            let bound = self.pending_bounds.remove(0);
            self.go(Stage::Resizing, PipelineAction::Resize { bound })
        } else {
            self.go(Stage::ReadingMetadata, PipelineAction::ReadMetadata)
        }
    }

    /// Starts a run for `submission`: an approved submission is left alone
    /// (nothing is fetched, written or sent); otherwise the original is
    /// downloaded first. `author` names the submitter in the caption;
    /// `remote_thumbnail` is the thumbnail the original came with, if any.
    pub fn start(
        submission: &Submission,
        files: PhotoToUpload,
        remote_thumbnail: Option<String>,
        author: String,
    ) -> (r: (PipelineRun, PipelineAction))
        ensures
            (r.0@, r.1) == start_of(
                submission.approved,
                file_type_of(crate::text::opt_view(submission.mime_type)) == FileType::Heic,
                remote_thumbnail is Some,
                submission.id,
            ),
            r.0.files_spec() == files,
            r.0.author_text() == author@,
            r.0.remote_thumbnail_spec() == remote_thumbnail,
    {
        let heic = FileType::from_mime(&submission.mime_type).is_heic();
        let mut run = PipelineRun {
            stage: Stage::Downloading,
            heic,
            submission_id: submission.id,
            files,
            remote_thumbnail,
            author,
            caption: String::new(),
            pending_bounds: Vec::new(),
            written: Vec::new(),
            cleaned: false,
            message_id: None,
            outcome: Outcome::Pending,
        };
        if submission.approved {
            run.stage = Stage::Finished;
            run.outcome = Outcome::Skipped;
            (run, PipelineAction::Finish)
        } else {
            let a = run.go(Stage::Downloading, PipelineAction::Download);
            (run, a)
        }
    }

    /// Advances the run by the outcome of the last action (see `transition`).
    /// The metadata event also fixes the caption.
    pub fn next(&mut self, e: PipelineEvent) -> (r: PipelineAction)
        ensures
            (final(self)@, r) == transition(old(self)@, &e),
            final(self).files_spec() == old(self).files_spec(),
            final(self).author_text() == old(self).author_text(),
            final(self).remote_thumbnail_spec() == old(self).remote_thumbnail_spec(),
            (old(self)@.stage == Stage::ReadingMetadata) ==> (match e {
                PipelineEvent::Metadata(Some(x)) => final(self).caption_text() == caption_of(
                    crate::exif::metadata_lines(
                        crate::exif::maker_model_text(x.maker_text(), x.model_text()),
                        crate::exif::info_text(x.info_parts()),
                    ),
                    old(self).author_text(),
                ),
                _ => final(self).caption_text() == caption_of(Seq::empty(), old(self).author_text()),
            }),
    {
        match self.stage {
            Stage::Downloading => match e {
                PipelineEvent::Done => if self.heic {
                    self.go(Stage::Converting, PipelineAction::Convert)
                } else {
                    self.go(Stage::CopyingOriginal, PipelineAction::CopyOriginal)
                },
                _ => self.fail_with(PipelineError::Download),
            },
            Stage::Converting => match e {
                PipelineEvent::Done => self.go(Stage::CopyingRendition, PipelineAction::CopyRendition),
                _ => self.fail_with(PipelineError::Conversion),
            },
            Stage::CopyingOriginal => match e {
                PipelineEvent::Done => self.go(Stage::CopyingRendition, PipelineAction::CopyRendition),
                _ => self.fail_with(PipelineError::Rendition),
            },
            Stage::CopyingRendition => match e {
                PipelineEvent::Done => self.go(Stage::Inspecting, PipelineAction::Inspect),
                _ => self.fail_with(PipelineError::Rendition),
            },
            Stage::Inspecting => match e {
                PipelineEvent::Inspected { bytes, width, height } => {
                    self.pending_bounds = rendition_bounds(bytes, width, height);
                    self.after_scaling()
                },
                _ => self.fail_with(PipelineError::Rendition),
            },
            Stage::Resizing => self.after_scaling(),
            Stage::ReadingMetadata => {
                let lines = match e {
                    PipelineEvent::Metadata(Some(x)) => x.caption_lines(),
                    _ => Vec::new(),
                };
                proof {
                    assert(lines_view(Seq::<String>::empty()) =~= Seq::<Seq<char>>::empty());
                }
                self.caption = compose_caption(lines, self.author.as_str());
                if self.remote_thumbnail.is_some() {
                    self.go(Stage::SendingPhoto, PipelineAction::SendPhoto)
                } else {
                    self.go(Stage::Thumbnailing, PipelineAction::MakeThumbnail { bound: THUMBNAIL_EDGE })
                }
            },
            Stage::Thumbnailing => match e {
                PipelineEvent::Done => self.go(Stage::SendingPhoto, PipelineAction::SendPhoto),
                _ => self.fail_with(PipelineError::Rendition),
            },
            Stage::SendingPhoto => match e {
                PipelineEvent::Sent { message_id } => {
                    self.message_id = Some(message_id);
                    if self.heic {
                        self.go(Stage::SendingOriginal, PipelineAction::SendGroup)
                    } else {
                        self.go(Stage::SendingOriginal, PipelineAction::SendDocument)
                    }
                },
                _ => self.fail_with(PipelineError::Upload),
            },
            Stage::SendingOriginal => match e {
                PipelineEvent::Done => match self.message_id {
                    Some(m) => self.go(Stage::Persisting, PipelineAction::Persist { message_id: m }),
                    None => self.fail_with(PipelineError::Upload),
                },
                _ => self.fail_with(PipelineError::Upload),
            },
            Stage::Persisting => match e {
                PipelineEvent::Done => match self.message_id {
                    Some(m) => {
                        self.stage = Stage::CleaningUp;
                        self.cleaned = true;
                        self.outcome = Outcome::Published { message_id: m };
                        PipelineAction::Cleanup
                    },
                    None => self.fail_with(PipelineError::Persistence),
                },
                _ => self.fail_with(PipelineError::Persistence),
            },
            Stage::CleaningUp => {
                self.stage = Stage::Finished;
                PipelineAction::Finish
            },
            Stage::Finished => PipelineAction::Finish,
        }
    }
}

/// Replaying an approval against an already approved submission does
/// nothing: the run finishes at once, skipped, having written no file and
/// performed no fetch, send or write.
pub proof fn lemma_replay_is_noop(heic: bool, remote_thumbnail: bool, id: u128)
    ensures
        start_of(true, heic, remote_thumbnail, id).1 == PipelineAction::Finish,
        start_of(true, heic, remote_thumbnail, id).0.stage == Stage::Finished,
        start_of(true, heic, remote_thumbnail, id).0.written.len() == 0,
        start_of(true, heic, remote_thumbnail, id).0.outcome == Outcome::Skipped,
        transition(start_of(true, heic, remote_thumbnail, id).0, &PipelineEvent::Done).1
            == PipelineAction::Finish,
{
}

/// Scratch files never outlive a run: every file an action may write is
/// recorded before the action is issued; the cleanup action comes with every
/// recorded file; once cleanup is issued nothing more is written; and a run
/// only finishes after cleanup, or without having written anything. Any
/// failure after the download has been issued leads to cleanup.
pub proof fn lemma_scratch_cleanup(s: RunView, e: &PipelineEvent)
    requires
        cleanup_safe(s),
    ensures
        cleanup_safe(transition(s, e).0),
        writes(transition(s, e).1) matches Some(f) ==> transition(s, e).0.written.contains(f),
        s.written.is_prefix_of(transition(s, e).0.written),
        s.cleaned ==> transition(s, e).0.written == s.written,
        transition(s, e).1 == PipelineAction::Cleanup ==> transition(s, e).0.cleaned
            && transition(s, e).0.stage == Stage::CleaningUp,
        transition(s, e).1 == PipelineAction::Finish ==> transition(s, e).0.cleaned
            || transition(s, e).0.written.len() == 0,
        (*e is Failed && s.stage != Stage::Resizing && s.stage != Stage::ReadingMetadata
            && s.stage != Stage::CleaningUp && s.stage != Stage::Finished) ==> transition(s, e).1
            == PipelineAction::Cleanup,
{
    let (t, a) = transition(s, e);
    if writes(a) is Some {
        let f = writes(a)->0;
        if !s.written.contains(f) {
            assert(s.written.push(f)[s.written.len() as int] == f);
        }
    }
    assert(s.written.is_prefix_of(s.written));
    if t.written != s.written {
        assert(s.written.is_prefix_of(t.written));
    }
}

/// A run that starts satisfies the cleanup discipline.
pub proof fn lemma_start_cleanup_safe(approved: bool, heic: bool, remote_thumbnail: bool, id: u128)
    ensures
        cleanup_safe(start_of(approved, heic, remote_thumbnail, id).0),
{
}

/// The state after the events `es`, and the actions issued on the way.
pub open spec fn after_events(s: RunView, es: Seq<PipelineEvent>) -> (RunView, Seq<PipelineAction>)
    decreases es.len(),
{
    if es.len() == 0 {
        (s, Seq::empty())
    } else {
        let (t, acts) = after_events(s, es.drop_last());
        let (u, a) = transition(t, &es.last());
        (u, acts.push(a))
    }
}

/// Over a whole run, whatever the events: every file any action wrote is
/// recorded; the state keeps the cleanup discipline, so a finished run has
/// issued cleanup of every recorded file or never wrote one; and once cleanup
/// is issued no action writes again.
pub proof fn lemma_run_cleans_up(
    approved: bool,
    heic: bool,
    remote_thumbnail: bool,
    id: u128,
    es: Seq<PipelineEvent>,
)
    ensures
        ({
            let (s0, a0) = start_of(approved, heic, remote_thumbnail, id);
            let (s, acts) = after_events(s0, es);
            &&& cleanup_safe(s)
            &&& (writes(a0) matches Some(f) ==> s.written.contains(f))
            &&& forall|i: int| #![trigger acts[i]]
                0 <= i < acts.len() && writes(acts[i]) is Some ==> s.written.contains(
                    writes(acts[i])->0,
                )
            &&& (s.stage == Stage::Finished ==> s.cleaned || s.written.len() == 0)
        }),
    decreases es.len(),
{
    let (s0, a0) = start_of(approved, heic, remote_thumbnail, id);
    lemma_start_cleanup_safe(approved, heic, remote_thumbnail, id);
    if writes(a0) is Some {
        assert(s0.written.push(ScratchFile::Original)[0] == ScratchFile::Original);
    }
    if es.len() > 0 {
        lemma_run_cleans_up(approved, heic, remote_thumbnail, id, es.drop_last());
        let (t, acts) = after_events(s0, es.drop_last());
        let e = es.last();
        lemma_scratch_cleanup(t, &e);
        let (u, a) = transition(t, &e);
        assert(t.written.is_prefix_of(u.written));
        assert forall|f: ScratchFile| t.written.contains(f) implies u.written.contains(f) by {
            let k = choose|k: int| 0 <= k < t.written.len() && t.written[k] == f;
            assert(u.written[k] == t.written[k]);
        }
        let all = acts.push(a);
        assert forall|i: int| #![trigger all[i]]
            0 <= i < all.len() && writes(all[i]) is Some implies u.written.contains(writes(all[i])->0) by {
            if i < acts.len() {
                assert(all[i] == acts[i]);
            }
        }
    }
}

/// Replaying an approval against an already approved submission stays a
/// no-op whatever is reported afterwards: every action of the run is
/// `Finish`, so nothing is fetched, decoded, sent, persisted or written, and
/// the run's state never changes.
pub proof fn lemma_replay_never_acts(
    heic: bool,
    remote_thumbnail: bool,
    id: u128,
    es: Seq<PipelineEvent>,
)
    ensures
        ({
            let s0 = start_of(true, heic, remote_thumbnail, id).0;
            let (s, acts) = after_events(s0, es);
            &&& s == s0
            &&& s.written.len() == 0
            &&& s.outcome == Outcome::Skipped
            &&& forall|i: int| 0 <= i < acts.len() ==> #[trigger] acts[i] == PipelineAction::Finish
        }),
    decreases es.len(),
{
    if es.len() > 0 {
        lemma_replay_never_acts(heic, remote_thumbnail, id, es.drop_last());
        let s0 = start_of(true, heic, remote_thumbnail, id).0;
        let acts = after_events(s0, es.drop_last()).1;
        let all = acts.push(PipelineAction::Finish);
        assert forall|i: int| 0 <= i < all.len() implies #[trigger] all[i] == PipelineAction::Finish by {
            if i < acts.len() {
                assert(all[i] == acts[i]);
            }
        }
    }
}

} // verus!
