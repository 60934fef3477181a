//! Content guards: for each destination, the kinds of file that it takes,
//! judged by what the bytes are and not by what the sender says they are.

use std::collections::HashMap;
use vstd::prelude::*;
use crate::prefixes::{prefix_named, Prefix};
use crate::s3::FileObject;
use crate::text::{chars_eq, chars_of, copy_range, str_eq};

verus! {

/// A kind of file that a guard can allow. `Any` allows everything.
#[derive(Debug, PartialEq, Eq, Clone, Copy, Structural)]
pub enum FileType {
    ImageJPEG,
    ImagePNG,
    ImageGIF,
    ImageWebP,
    VideoMP4,
    VideoWebM,
    AudioMP3,
    AudioWebM,
    AudioOGG,
    AudioWAV,
    DocumentPDF,
    Any,
}

/// The kind that the media type `s` names; `Any` where it names none.
pub open spec fn file_type_named(s: Seq<char>) -> FileType {
    if s == "image/jpeg"@ {
        FileType::ImageJPEG
    } else if s == "image/png"@ {
        FileType::ImagePNG
    } else if s == "image/gif"@ {
        FileType::ImageGIF
    } else if s == "image/webp"@ {
        FileType::ImageWebP
    } else if s == "video/mp4"@ {
        FileType::VideoMP4
    } else if s == "video/webm"@ {
        FileType::VideoWebM
    } else if s == "audio/mpeg"@ {
        FileType::AudioMP3
    } else if s == "audio/webm"@ {
        FileType::AudioWebM
    } else if s == "audio/ogg"@ {
        FileType::AudioOGG
    } else if s == "audio/wav"@ {
        FileType::AudioWAV
    } else if s == "application/pdf"@ {
        FileType::DocumentPDF
    } else {
        FileType::Any
    }
}

impl FileType {
    /// The media type that names the kind.
    pub open spec fn mime(self) -> Seq<char> {
        match self {
            FileType::ImageJPEG => "image/jpeg"@,
            FileType::ImagePNG => "image/png"@,
            FileType::ImageGIF => "image/gif"@,
            FileType::ImageWebP => "image/webp"@,
            FileType::VideoMP4 => "video/mp4"@,
            FileType::VideoWebM => "video/webm"@,
            FileType::AudioMP3 => "audio/mpeg"@,
            FileType::AudioWebM => "audio/webm"@,
            FileType::AudioOGG => "audio/ogg"@,
            FileType::AudioWAV => "audio/wav"@,
            FileType::DocumentPDF => "application/pdf"@,
            FileType::Any => "application/octet-stream"@,
        }
    }
}

impl From<&str> for FileType {
    fn from(s: &str) -> (r: Self) {
        if str_eq(s, "image/jpeg") {
            FileType::ImageJPEG
        } else if str_eq(s, "image/png") {
            FileType::ImagePNG
        } else if str_eq(s, "image/gif") {
            FileType::ImageGIF
        } else if str_eq(s, "image/webp") {
            FileType::ImageWebP
        } else if str_eq(s, "video/mp4") {
            FileType::VideoMP4
        } else if str_eq(s, "video/webm") {
            FileType::VideoWebM
        } else if str_eq(s, "audio/mpeg") {
            FileType::AudioMP3
        } else if str_eq(s, "audio/webm") {
            FileType::AudioWebM
        } else if str_eq(s, "audio/ogg") {
            FileType::AudioOGG
        } else if str_eq(s, "audio/wav") {
            FileType::AudioWAV
        } else if str_eq(s, "application/pdf") {
            FileType::DocumentPDF
        } else {
            FileType::Any
        }
    }
}

impl vstd::std_specs::convert::FromSpecImpl<&str> for FileType {
    open spec fn obeys_from_spec() -> bool {
        true
    }

    open spec fn from_spec(s: &str) -> Self {
        file_type_named(s@)
    }
}

impl From<FileType> for &str {
    fn from(file_type: FileType) -> (r: Self) {
        match file_type {
            FileType::ImageJPEG => "image/jpeg",
            FileType::ImagePNG => "image/png",
            FileType::ImageGIF => "image/gif",
            FileType::ImageWebP => "image/webp",
            FileType::VideoMP4 => "video/mp4",
            FileType::VideoWebM => "video/webm",
            FileType::AudioMP3 => "audio/mpeg",
            FileType::AudioWebM => "audio/webm",
            FileType::AudioOGG => "audio/ogg",
            FileType::AudioWAV => "audio/wav",
            FileType::DocumentPDF => "application/pdf",
            FileType::Any => "application/octet-stream",
        }
    }
}

impl vstd::std_specs::convert::FromSpecImpl<FileType> for &str {
    open spec fn obeys_from_spec() -> bool {
        true
    }

    open spec fn from_spec(file_type: FileType) -> Self {
        match file_type {
            FileType::ImageJPEG => "image/jpeg",
            FileType::ImagePNG => "image/png",
            FileType::ImageGIF => "image/gif",
            FileType::ImageWebP => "image/webp",
            FileType::VideoMP4 => "video/mp4",
            FileType::VideoWebM => "video/webm",
            FileType::AudioMP3 => "audio/mpeg",
            FileType::AudioWebM => "audio/webm",
            FileType::AudioOGG => "audio/ogg",
            FileType::AudioWAV => "audio/wav",
            FileType::DocumentPDF => "application/pdf",
            FileType::Any => "application/octet-stream",
        }
    }
}

/// Every kind is the one that its own media type names.
pub proof fn lemma_mime_names_it(t: FileType)
    ensures
        file_type_named(t.mime()) == t,
{
    reveal_strlit("image/jpeg");
    reveal_strlit("image/png");
    reveal_strlit("image/gif");
    reveal_strlit("image/webp");
    reveal_strlit("video/mp4");
    reveal_strlit("video/webm");
    reveal_strlit("audio/mpeg");
    reveal_strlit("audio/webm");
    reveal_strlit("audio/ogg");
    reveal_strlit("audio/wav");
    reveal_strlit("application/pdf");
    reveal_strlit("application/octet-stream");
    assert("image/jpeg"@[6] == 'j' && "image/png"@[6] == 'p' && "image/gif"@[6] == 'g'
        && "image/webp"@[6] == 'w');
    assert("video/mp4"@[6] == 'm' && "video/webm"@[6] == 'w');
    assert("audio/mpeg"@[6] == 'm' && "audio/webm"@[7] == 'e' && "audio/ogg"@[6] == 'o'
        && "audio/wav"@[7] == 'a');
    assert("image/jpeg"@[0] == 'i' && "image/png"@[0] == 'i' && "image/gif"@[0] == 'i'
        && "image/webp"@[0] == 'i');
    assert("audio/mpeg"@[0] == 'a' && "audio/webm"@[0] == 'a' && "audio/ogg"@[0] == 'a'
        && "audio/wav"@[0] == 'a');
    assert("audio/mpeg"@[1] == 'u' && "audio/webm"@[1] == 'u' && "audio/ogg"@[1] == 'u'
        && "audio/wav"@[1] == 'u');
    assert("application/pdf"@.len() == 15 && "application/octet-stream"@.len() == 24);
}

/// What the content of a file shows it to be.
#[derive(Debug)]
pub struct SniffedKind {
    pub mime: String,
    pub extension: String,
}

/// What the content `data` shows it to be: its media type and the
/// extension that files of the kind carry. `None` where the content bears
/// no known mark.
pub uninterp spec fn sniffed_kind(data: Seq<u8>) -> Option<(Seq<char>, Seq<char>)>;

/// `infer::get`, with `Type::mime_type` and `Type::extension`: the first
/// kind of its table whose mark the leading bytes of `data` bear.
#[verifier::external_body]
fn sniff(data: &[u8]) -> (r: Option<SniffedKind>)
    ensures
        match r {
            Some(k) => sniffed_kind(data@) == Some((k.mime@, k.extension@)),
            None => sniffed_kind(data@) is None,
        },
{
    infer::get(data).map(
        |k| SniffedKind { mime: k.mime_type().to_string(), extension: k.extension().to_string() },
    )
}

/// Why a guard turned an upload down.
#[derive(Debug, PartialEq, Eq, Clone, Copy, Structural)]
pub enum GuardError {
    FileTypeNotAllowed,
    WrongContentType,
    UnknownFileType,
    MissingFileExtension,
    WrongFileExtension,
    UnknownPrefix,
    NoGuardFound,
}

impl GuardError {
    /// The words that go with the error.
    pub open spec fn text(self) -> Seq<char> {
        match self {
            GuardError::FileTypeNotAllowed => "File type not allowed"@,
            GuardError::WrongContentType => "Wrong content type"@,
            GuardError::UnknownFileType => "Unknown file type"@,
            GuardError::MissingFileExtension => "Missing file extension"@,
            GuardError::WrongFileExtension => "Wrong file extension"@,
            GuardError::UnknownPrefix => "Unknown prefix"@,
            GuardError::NoGuardFound => "No guard found"@,
        }
    }

    /// The words that go with the error.
    pub fn to_string(&self) -> (r: String)
        ensures
            r@ == self.text(),
    {
        match self {
            GuardError::FileTypeNotAllowed => "File type not allowed".to_owned(),
            GuardError::WrongContentType => "Wrong content type".to_owned(),
            GuardError::UnknownFileType => "Unknown file type".to_owned(),
            GuardError::MissingFileExtension => "Missing file extension".to_owned(),
            GuardError::WrongFileExtension => "Wrong file extension".to_owned(),
            GuardError::UnknownPrefix => "Unknown prefix".to_owned(),
            GuardError::NoGuardFound => "No guard found".to_owned(),
        }
    }
}

/// Position of the last `c` in `s`; -1 where there is none.
pub open spec fn last_index(s: Seq<char>, c: char) -> int
    decreases s.len(),
{
    if s.len() == 0 {
        -1
    } else if s.last() == c {
        s.len() - 1
    } else {
        last_index(s.drop_last(), c)
    }
}

/// The extension of a file name: what follows its last `.`. `None` where
/// the name has no `.`.
pub open spec fn extension_of(name: Seq<char>) -> Option<Seq<char>> {
    let k = last_index(name, '.');
    if k < 0 {
        None
    } else {
        Some(name.skip(k + 1))
    }
}

/// What a guard is, to the eye of a contract.
pub struct GuardView {
    pub allowed: Set<FileType>,
    pub check_extension: bool,
}

/// What a guard with the policy `guard` finds wrong with an upload whose
/// content shows `kind`, sent as `content_type` under the name `file_name`.
/// `None` where it finds nothing wrong.
pub open spec fn objection(
    guard: GuardView,
    kind: Option<(Seq<char>, Seq<char>)>,
    content_type: Seq<char>,
    file_name: Seq<char>,
) -> Option<GuardError> {
    if guard.allowed.contains(FileType::Any) {
        None
    } else {
        match kind {
            None => Some(GuardError::UnknownFileType),
            Some((mime, extension)) => {
                let found = file_type_named(mime);
                if !guard.allowed.contains(found) {
                    Some(GuardError::FileTypeNotAllowed)
                } else if found.mime() != content_type {
                    Some(GuardError::WrongContentType)
                } else if guard.check_extension {
                    match extension_of(file_name) {
                        None => Some(GuardError::MissingFileExtension),
                        Some(e) => if e != extension {
                            Some(GuardError::WrongFileExtension)
                        } else {
                            None
                        },
                    }
                } else {
                    None
                }
            },
        }
    }
}

/// The kinds of file that one destination takes.
#[derive(Clone, Debug)]
pub struct Guard {
    allowed_file_types: Vec<FileType>,
    check_extension: bool,
}

impl View for Guard {
    type V = GuardView;

    closed spec fn view(&self) -> GuardView {
        GuardView {
            allowed: self.allowed_file_types@.to_set(),
            check_extension: self.check_extension,
        }
    }
}

impl Guard {
    /// A guard that takes the kinds in `allowed_file_types` and does not
    /// look at file names.
    pub fn new(allowed_file_types: Vec<FileType>) -> (r: Self)
        ensures
            r@.allowed == allowed_file_types@.to_set(),
            !r@.check_extension,
    {
        Self { allowed_file_types, check_extension: false }
    }

    /// The same guard, but one that holds file names to the extension of
    /// the kind that the content shows, or no longer does.
    pub fn with_extension_check(self, enabled: bool) -> (r: Self)
        ensures
            r@.allowed == self@.allowed,
            r@.check_extension == enabled,
    {
        Self { allowed_file_types: self.allowed_file_types, check_extension: enabled }
    }

    /// Whether the guard takes files of the kind `t`.
    pub fn allows(&self, t: FileType) -> (r: bool)
        ensures
            r == self@.allowed.contains(t),
    {
        let mut i: usize = 0;
        while i < self.allowed_file_types.len()
            invariant
                i <= self.allowed_file_types.len(),
                forall|j: int| 0 <= j < i ==> self.allowed_file_types@[j] != t,
            decreases self.allowed_file_types.len() - i,
        {
            if self.allowed_file_types[i] == t {
                return true;
            }
            i = i + 1;
        }
        false
    }

    /// Judges an upload whose content has been sniffed already: `kind` is
    /// what the content showed.
    pub fn judge(
        &self,
        kind: Option<SniffedKind>,
        data: Vec<u8>,
        content_type: &str,
        file_name: &str,
    ) -> (r: Result<FileObject, GuardError>)
        ensures
            match objection(
                self@,
                match kind {
                    Some(k) => Some((k.mime@, k.extension@)),
                    None => None,
                },
                content_type@,
                file_name@,
            ) {
                None => r matches Ok(f) && f.data@ == data@ && f.content_type@ == content_type@,
                Some(e) => r == Err::<FileObject, GuardError>(e),
            },
    {
        if self.allows(FileType::Any) {
            return Ok(FileObject { data, content_type: content_type.to_owned() });
        }
        match kind {
            None => Err(GuardError::UnknownFileType),
            Some(k) => {
                let found = FileType::from(k.mime.as_str());
                if !self.allows(found) {
                    return Err(GuardError::FileTypeNotAllowed);
                }
                let canonical: &str = found.into();
                if !str_eq(canonical, content_type) {
                    return Err(GuardError::WrongContentType);
                }
                if self.check_extension {
                    match file_extension(file_name) {
                        None => {
                            return Err(GuardError::MissingFileExtension);
                        },
                        Some(e) => {
                            if !chars_eq(&e, &chars_of(k.extension.as_str())) {
                                return Err(GuardError::WrongFileExtension);
                            }
                        },
                    }
                }
                Ok(FileObject { data, content_type: content_type.to_owned() })
            },
        }
    }

    /// Judges an upload by what its bytes are. A guard that allows `Any`
    /// takes it as it comes, under the content type it was sent with; any
    /// other guard sniffs the bytes and holds the upload to what they show.
    pub fn check(&self, data: Vec<u8>, content_type: &str, file_name: &str) -> (r: Result<
        FileObject,
        GuardError,
    >)
        ensures
            match objection(self@, sniffed_kind(data@), content_type@, file_name@) {
                None => r matches Ok(f) && f.data@ == data@ && f.content_type@ == content_type@,
                Some(e) => r == Err::<FileObject, GuardError>(e),
            },
            self@.allowed.contains(FileType::Any) ==> (r matches Ok(f) && f.data@ == data@
                && f.content_type@ == content_type@),
    {
        if self.allows(FileType::Any) {
            return Ok(FileObject { data, content_type: content_type.to_owned() });
        }
        let kind = sniff(data.as_slice());
        self.judge(kind, data, content_type, file_name)
    }
}

/// The extension of the file name `name`.
pub fn file_extension(name: &str) -> (r: Option<Vec<char>>)
    ensures
        match extension_of(name@) {
            Some(e) => r matches Some(x) && x@ == e,
            None => r is None,
        },
{
    let v = chars_of(name);
    let mut k: usize = v.len();
    proof {
        assert(v@.take(k as int) =~= v@);
    }
    while k > 0 && v[k - 1] != '.'
        invariant
            k <= v.len(),
            last_index(v@, '.') == last_index(v@.take(k as int), '.'),
        decreases k,
    {
        proof {
            let t = v@.take(k as int);
            assert(t.drop_last() =~= v@.take(k - 1));
        }
        k = k - 1;
    }
    if k == 0 {
        None
    } else {
        Some(copy_range(&v, k, v.len()))
    }
}

/// The policy that a table of guards, kept under the codes of their
/// destinations, gives to each destination.
pub open spec fn registry(entries: Map<u8, Guard>) -> Map<Prefix, GuardView> {
    Map::new(|p: Prefix| entries.contains_key(p.code()), |p: Prefix| entries[p.code()]@)
}

/// What a registry finds wrong with an upload addressed to `destination`;
/// `None` where it finds nothing wrong.
pub open spec fn refusal(
    guards: Map<Prefix, GuardView>,
    destination: Seq<char>,
    kind: Option<(Seq<char>, Seq<char>)>,
    content_type: Seq<char>,
    file_name: Seq<char>,
) -> Option<GuardError> {
    let prefix = prefix_named(destination);
    if prefix == Prefix::Unknown {
        Some(GuardError::UnknownPrefix)
    } else if !guards.contains_key(prefix) {
        Some(GuardError::NoGuardFound)
    } else {
        objection(guards[prefix], kind, content_type, file_name)
    }
}

/// The guards of all destinations, fixed once built.
pub struct Guards {
    map: HashMap<u8, Guard>,
}

impl View for Guards {
    type V = Map<Prefix, GuardView>;

    closed spec fn view(&self) -> Map<Prefix, GuardView> {
        registry(self.map@)
    }
}

/// Collects the guards of the destinations, one guard for each: a later
/// guard for a destination takes the place of an earlier one.
pub struct GuardsBuilder {
    map: HashMap<u8, Guard>,
}

impl View for GuardsBuilder {
    type V = Map<Prefix, GuardView>;

    closed spec fn view(&self) -> Map<Prefix, GuardView> {
        registry(self.map@)
    }
}

impl GuardsBuilder {
    /// A builder that holds no guard.
    pub fn new() -> (r: Self)
        ensures
            r@ == Map::<Prefix, GuardView>::empty(),
    {
        let r = Self { map: HashMap::new() };
        assert(r@ =~= Map::<Prefix, GuardView>::empty());
        r
    }

    /// Gives `destination` the guard `guard`.
    pub fn add(&mut self, destination: Prefix, guard: Guard) -> (r: &mut Self)
        ensures
            final(self)@ == final(r)@,
            r@ == old(self)@.insert(destination, guard@),
    {
        broadcast use vstd::std_specs::hash::group_hash_axioms;

        let ghost before = self.map@;
        self.map.insert(destination.index(), guard);
        assert(registry(before.insert(destination.code(), guard)) =~= registry(before).insert(
            destination,
            guard@,
        ));
        self
    }

    /// The registry of the guards collected so far.
    pub fn build(&self) -> (r: Guards)
        ensures
            r@ == self@,
    {
        Guards { map: self.map.clone() }
    }
}

impl Guards {
    /// The guard of `prefix`.
    pub fn guard_of(&self, prefix: Prefix) -> (r: Option<&Guard>)
        ensures
            match r {
                Some(g) => self@.contains_key(prefix) && self@[prefix] == g@,
                None => !self@.contains_key(prefix),
            },
    {
        broadcast use vstd::std_specs::hash::group_hash_axioms;

        self.map.get(&prefix.index())
    }

    /// Judges an upload addressed to `destination`. A destination that is
    /// none of the known ones is turned down whatever the registry holds; a
    /// known one is judged by its guard, and turned down where it has none.
    pub fn check(&self, destination: &str, file_name: &str, data: Vec<u8>, content_type: &str) -> (r:
        Result<FileObject, GuardError>)
        ensures
            match refusal(self@, destination@, sniffed_kind(data@), content_type@, file_name@) {
                None => r matches Ok(f) && f.data@ == data@ && f.content_type@ == content_type@,
                Some(e) => r == Err::<FileObject, GuardError>(e),
            },
            prefix_named(destination@) == Prefix::Unknown ==> r == Err::<FileObject, GuardError>(
                GuardError::UnknownPrefix,
            ),
    {
        let prefix = Prefix::from(destination);
        if prefix == Prefix::Unknown {
            return Err(GuardError::UnknownPrefix);
        }
        match self.guard_of(prefix) {
            Some(guard) => guard.check(data, content_type, file_name),
            None => Err(GuardError::NoGuardFound),
        }
    }
}

/// The policy that the server starts with: a profile picture is a PNG, a
/// JPEG or a GIF image, whatever its name; no other destination takes
/// anything.
pub open spec fn startup_policy() -> Map<Prefix, GuardView> {
    Map::<Prefix, GuardView>::empty().insert(
        Prefix::ProfilePicture,
        GuardView {
            allowed: set![FileType::ImagePNG, FileType::ImageJPEG, FileType::ImageGIF],
            check_extension: false,
        },
    )
}

/// The guards that the server starts with.
pub fn startup_guards() -> (r: Guards)
    ensures
        r@ == startup_policy(),
{
    let kinds = vec![FileType::ImagePNG, FileType::ImageJPEG, FileType::ImageGIF];
    proof {
        let s = kinds@;
        assert(s.to_set() =~= set![FileType::ImagePNG, FileType::ImageJPEG, FileType::ImageGIF])
            by {
            assert(s[0] == FileType::ImagePNG && s[1] == FileType::ImageJPEG && s[2]
                == FileType::ImageGIF);
            assert forall|t: FileType|
                s.to_set().contains(t) <==> (t == FileType::ImagePNG || t == FileType::ImageJPEG
                    || t == FileType::ImageGIF) by {}
        }
    }
    let mut builder = GuardsBuilder::new();
    builder.add(Prefix::ProfilePicture, Guard::new(kinds));
    builder.build()
}

/// Where a guard does not allow everything, an upload whose content shows
/// a kind that the guard does not allow is turned down for its kind,
/// whatever it is sent as and whatever its name.
pub proof fn lemma_unlisted_kind_is_not_allowed(
    guard: GuardView,
    mime: Seq<char>,
    extension: Seq<char>,
    content_type: Seq<char>,
    file_name: Seq<char>,
)
    requires
        !guard.allowed.contains(FileType::Any),
        !guard.allowed.contains(file_type_named(mime)),
    ensures
        objection(guard, Some((mime, extension)), content_type, file_name) == Some(
            GuardError::FileTypeNotAllowed,
        ),
{
}

/// Where a guard does not allow everything, an upload whose content shows
/// a kind that the guard allows, but which is sent as anything else than
/// the media type of that kind, is turned down for its content type.
pub proof fn lemma_declared_type_must_be_the_sniffed_one(
    guard: GuardView,
    mime: Seq<char>,
    extension: Seq<char>,
    content_type: Seq<char>,
    file_name: Seq<char>,
)
    requires
        !guard.allowed.contains(FileType::Any),
        guard.allowed.contains(file_type_named(mime)),
        content_type != file_type_named(mime).mime(),
    ensures
        objection(guard, Some((mime, extension)), content_type, file_name) == Some(
            GuardError::WrongContentType,
        ),
{
}

/// A guard that allows everything finds nothing wrong with anything.
pub proof fn lemma_any_allows_everything(
    guard: GuardView,
    kind: Option<(Seq<char>, Seq<char>)>,
    content_type: Seq<char>,
    file_name: Seq<char>,
)
    requires
        guard.allowed.contains(FileType::Any),
    ensures
        objection(guard, kind, content_type, file_name) is None,
{
}

/// An upload to a destination that is none of the known ones is turned
/// down as such, whatever the registry holds and whatever is uploaded.
pub proof fn lemma_unknown_prefix_is_refused(
    guards: Map<Prefix, GuardView>,
    destination: Seq<char>,
    kind: Option<(Seq<char>, Seq<char>)>,
    content_type: Seq<char>,
    file_name: Seq<char>,
)
    requires
        prefix_named(destination) == Prefix::Unknown,
    ensures
        refusal(guards, destination, kind, content_type, file_name) == Some(
            GuardError::UnknownPrefix,
        ),
{
}

} // verus!
