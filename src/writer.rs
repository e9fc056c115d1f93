use vstd::prelude::*;

use crate::error::{check_c_string, has_nul, nul_description, QPdfError, QPdfErrorCode};
use crate::stream::{ObjectStreamMode, StreamDataMode, StreamDecodeLevel};

verus! {

/// Print permissions
#[derive(Debug, Default, Clone, Copy, PartialEq, Eq, Structural, PartialOrd)]
pub enum PrintPermission {
    #[default]
    Full,
    Low,
    NoPrint,
}

/// The engine's code of each print permission.
pub open spec fn print_code(p: PrintPermission) -> u32 {
    match p {
        PrintPermission::Full => 0,
        PrintPermission::Low => 1,
        PrintPermission::NoPrint => 2,
    }
}

impl PrintPermission {
    /// The engine's code of this print permission
    pub fn as_qpdf_enum(&self) -> (r: u32)
        ensures
            r == print_code(*self),
    {
        match self {
            PrintPermission::Full => 0,
            PrintPermission::Low => 1,
            PrintPermission::NoPrint => 2,
        }
    }
}

/// Encryption using RC4 with key length of 40 bits
#[derive(Debug, Default, Clone, PartialEq, Eq)]
pub struct EncryptionParamsR2 {
    pub user_password: String,
    pub owner_password: String,
    pub allow_print: bool,
    pub allow_modify: bool,
    pub allow_extract: bool,
    pub allow_annotate: bool,
}

/// Encryption using RC4 with key length of 128 bits.
/// Minimal PDF version: 1.4.
#[derive(Debug, Default, Clone, PartialEq, Eq)]
pub struct EncryptionParamsR3 {
    pub user_password: String,
    pub owner_password: String,
    pub allow_accessibility: bool,
    pub allow_extract: bool,
    pub allow_assemble: bool,
    pub allow_annotate_and_form: bool,
    pub allow_form_filling: bool,
    pub allow_modify_other: bool,
    pub allow_print: PrintPermission,
}

/// Encryption using RC4-128 or AES-256 algorithm and additional flag to encrypt metadata.
/// Minimal PDF version: 1.5.
#[derive(Debug, Default, Clone, PartialEq, Eq)]
pub struct EncryptionParamsR4 {
    pub user_password: String,
    pub owner_password: String,
    pub allow_accessibility: bool,
    pub allow_extract: bool,
    pub allow_assemble: bool,
    pub allow_annotate_and_form: bool,
    pub allow_form_filling: bool,
    pub allow_modify_other: bool,
    pub allow_print: PrintPermission,
    pub encrypt_metadata: bool,
    pub use_aes: bool,
}

/// Encryption using AES-256 algorithm and additional flag to encrypt metadata
/// Minimal PDF version: 1.7. Is required for PDF 2.0.
#[derive(Debug, Default, Clone, PartialEq, Eq)]
pub struct EncryptionParamsR6 {
    pub user_password: String,
    pub owner_password: String,
    pub allow_accessibility: bool,
    pub allow_extract: bool,
    pub allow_assemble: bool,
    pub allow_annotate_and_form: bool,
    pub allow_form_filling: bool,
    pub allow_modify_other: bool,
    pub allow_print: PrintPermission,
    pub encrypt_metadata: bool,
}

/// Encryption parameters selector
#[derive(Debug, Clone, PartialEq, Eq)]
pub enum EncryptionParams {
    /// R2 level, any PDF version
    R2(EncryptionParamsR2),
    /// R3 level, PDF version >= 1.4
    R3(EncryptionParamsR3),
    /// R4 level, PDF version >= 1.5
    R4(EncryptionParamsR4),
    /// R6 level, PDF version >= 1.7
    R6(EncryptionParamsR6),
}

/// The arguments of the engine's encryption setter for one revision, in the
/// order of its parameter list.
#[derive(Debug)]
pub struct EncryptionArguments {
    /// 2, 3, 4 or 6: which of the engine's setters takes these arguments
    pub revision: u32,
    pub user_password: String,
    pub owner_password: String,
    /// The permission flags that the setter takes, in its order
    pub permissions: Vec<bool>,
    /// The engine's code of the print permission (revisions 3 and up)
    pub print: Option<u32>,
    /// Whether metadata is encrypted (revisions 4 and 6)
    pub encrypt_metadata: Option<bool>,
    /// Whether AES is used (revision 4)
    pub use_aes: Option<bool>,
}

/// Whether `a` holds the engine arguments for encryption parameters `p`.
pub open spec fn encryption_arguments_of(p: EncryptionParams, a: EncryptionArguments) -> bool {
    match p {
        EncryptionParams::R2(r) => {
            &&& a.revision == 2
            &&& a.user_password@ == r.user_password@
            &&& a.owner_password@ == r.owner_password@
            &&& a.permissions@ == seq![r.allow_print, r.allow_modify, r.allow_extract, r.allow_annotate]
            &&& a.print.is_none()
            &&& a.encrypt_metadata.is_none()
            &&& a.use_aes.is_none()
        },
        EncryptionParams::R3(r) => {
            &&& a.revision == 3
            &&& a.user_password@ == r.user_password@
            &&& a.owner_password@ == r.owner_password@
            &&& a.permissions@ == seq![
                r.allow_accessibility,
                r.allow_extract,
                r.allow_assemble,
                r.allow_annotate_and_form,
                r.allow_form_filling,
                r.allow_modify_other,
            ]
            &&& a.print == Some(print_code(r.allow_print))
            &&& a.encrypt_metadata.is_none()
            &&& a.use_aes.is_none()
        },
        EncryptionParams::R4(r) => {
            &&& a.revision == 4
            &&& a.user_password@ == r.user_password@
            &&& a.owner_password@ == r.owner_password@
            &&& a.permissions@ == seq![
                r.allow_accessibility,
                r.allow_extract,
                r.allow_assemble,
                r.allow_annotate_and_form,
                r.allow_form_filling,
                r.allow_modify_other,
            ]
            &&& a.print == Some(print_code(r.allow_print))
            &&& a.encrypt_metadata == Some(r.encrypt_metadata)
            &&& a.use_aes == Some(r.use_aes)
        },
        EncryptionParams::R6(r) => {
            &&& a.revision == 6
            &&& a.user_password@ == r.user_password@
            &&& a.owner_password@ == r.owner_password@
            &&& a.permissions@ == seq![
                r.allow_accessibility,
                r.allow_extract,
                r.allow_assemble,
                r.allow_annotate_and_form,
                r.allow_form_filling,
                r.allow_modify_other,
            ]
            &&& a.print == Some(print_code(r.allow_print))
            &&& a.encrypt_metadata == Some(r.encrypt_metadata)
            &&& a.use_aes.is_none()
        },
    }
}

impl EncryptionParams {
    /// The arguments of the engine's encryption setter for these parameters
    pub fn engine_arguments(&self) -> (r: EncryptionArguments)
        ensures
            encryption_arguments_of(*self, r),
    {
        match self {
            EncryptionParams::R2(p) => EncryptionArguments {
                revision: 2,
                user_password: p.user_password.clone(),
                owner_password: p.owner_password.clone(),
                permissions: vec![p.allow_print, p.allow_modify, p.allow_extract, p.allow_annotate],
                print: None,
                encrypt_metadata: None,
                use_aes: None,
            },
            EncryptionParams::R3(p) => EncryptionArguments {
                revision: 3,
                user_password: p.user_password.clone(),
                owner_password: p.owner_password.clone(),
                permissions: vec![
                    p.allow_accessibility,
                    p.allow_extract,
                    p.allow_assemble,
                    p.allow_annotate_and_form,
                    p.allow_form_filling,
                    p.allow_modify_other,
                ],
                print: Some(p.allow_print.as_qpdf_enum()),
                encrypt_metadata: None,
                use_aes: None,
            },
            EncryptionParams::R4(p) => EncryptionArguments {
                revision: 4,
                user_password: p.user_password.clone(),
                owner_password: p.owner_password.clone(),
                permissions: vec![
                    p.allow_accessibility,
                    p.allow_extract,
                    p.allow_assemble,
                    p.allow_annotate_and_form,
                    p.allow_form_filling,
                    p.allow_modify_other,
                ],
                print: Some(p.allow_print.as_qpdf_enum()),
                encrypt_metadata: Some(p.encrypt_metadata),
                use_aes: Some(p.use_aes),
            },
            EncryptionParams::R6(p) => EncryptionArguments {
                revision: 6,
                user_password: p.user_password.clone(),
                owner_password: p.owner_password.clone(),
                permissions: vec![
                    p.allow_accessibility,
                    p.allow_extract,
                    p.allow_assemble,
                    p.allow_annotate_and_form,
                    p.allow_form_filling,
                    p.allow_modify_other,
                ],
                print: Some(p.allow_print.as_qpdf_enum()),
                encrypt_metadata: Some(p.encrypt_metadata),
                use_aes: None,
            },
        }
    }
}

/// One engine writer setting, applied to the document right before it is
/// written.
#[derive(Debug)]
pub enum WriterSetting {
    CompressStreams(bool),
    PreserveUnreferencedObjects(bool),
    ContentNormalization(bool),
    PreserveEncryption(bool),
    Linearization(bool),
    StaticId(bool),
    DeterministicId(bool),
    DecodeLevel(StreamDecodeLevel),
    ObjectStreamMode(ObjectStreamMode),
    StreamDataMode(StreamDataMode),
    MinimumPdfVersion(String),
    ForcePdfVersion(String),
    Encryption(EncryptionArguments),
}

/// PDF writer with several customizable parameters, bound to the document
/// it writes. Each option is staged here and applied only when writing.
pub struct QPdfWriter<D> {
    pub owner: D,
    pub compress_streams: Option<bool>,
    pub preserve_unreferenced_objects: Option<bool>,
    pub normalize_content: Option<bool>,
    pub preserve_encryption: Option<bool>,
    pub linearize: Option<bool>,
    pub static_id: Option<bool>,
    pub deterministic_id: Option<bool>,
    pub min_pdf_version: Option<String>,
    pub force_pdf_version: Option<String>,
    pub stream_decode_level: Option<StreamDecodeLevel>,
    pub object_stream_mode: Option<ObjectStreamMode>,
    pub stream_data_mode: Option<StreamDataMode>,
    pub encryption_params: Option<EncryptionParams>,
}

impl<D> QPdfWriter<D> {
    /// A writer for `owner` with no option staged
    pub fn new(owner: D) -> (r: Self)
        ensures
            r.owner == owner,
            r.compress_streams.is_none(),
            r.preserve_unreferenced_objects.is_none(),
            r.normalize_content.is_none(),
            r.preserve_encryption.is_none(),
            r.linearize.is_none(),
            r.static_id.is_none(),
            r.deterministic_id.is_none(),
            r.min_pdf_version.is_none(),
            r.force_pdf_version.is_none(),
            r.stream_decode_level.is_none(),
            r.object_stream_mode.is_none(),
            r.stream_data_mode.is_none(),
            r.encryption_params.is_none(),
    {
        QPdfWriter {
            owner,
            compress_streams: None,
            preserve_unreferenced_objects: None,
            normalize_content: None,
            preserve_encryption: None,
            linearize: None,
            static_id: None,
            deterministic_id: None,
            min_pdf_version: None,
            force_pdf_version: None,
            stream_decode_level: None,
            object_stream_mode: None,
            stream_data_mode: None,
            encryption_params: None,
        }
    }

    /// Enable or disable stream compression
    pub fn compress_streams(&mut self, flag: bool) -> (r: &mut Self)
        ensures
            *r == (QPdfWriter { compress_streams: Some(flag), ..*old(self) }),
            *final(self) == *final(r),
    {
        self.compress_streams = Some(flag);
        self
    }

    /// Set minimum PDF version
    pub fn minimum_pdf_version(&mut self, version: &str) -> (r: &mut Self)
        ensures
            r.min_pdf_version.is_some(),
            r.min_pdf_version.unwrap()@ == version@,
            *r == (QPdfWriter { min_pdf_version: r.min_pdf_version, ..*old(self) }),
            *final(self) == *final(r),
    {
        self.min_pdf_version = Some(String::from_str(version));
        self
    }

    /// Force a specific PDF version
    pub fn force_pdf_version(&mut self, version: &str) -> (r: &mut Self)
        ensures
            r.force_pdf_version.is_some(),
            r.force_pdf_version.unwrap()@ == version@,
            *r == (QPdfWriter { force_pdf_version: r.force_pdf_version, ..*old(self) }),
            *final(self) == *final(r),
    {
        self.force_pdf_version = Some(String::from_str(version));
        self
    }

    /// Set stream decode level
    pub fn stream_decode_level(&mut self, level: StreamDecodeLevel) -> (r: &mut Self)
        ensures
            *r == (QPdfWriter { stream_decode_level: Some(level), ..*old(self) }),
            *final(self) == *final(r),
    {
        self.stream_decode_level = Some(level);
        self
    }

    /// Set object stream mode
    pub fn object_stream_mode(&mut self, mode: ObjectStreamMode) -> (r: &mut Self)
        ensures
            *r == (QPdfWriter { object_stream_mode: Some(mode), ..*old(self) }),
            *final(self) == *final(r),
    {
        self.object_stream_mode = Some(mode);
        self
    }

    /// Set stream data mode
    pub fn stream_data_mode(&mut self, mode: StreamDataMode) -> (r: &mut Self)
        ensures
            *r == (QPdfWriter { stream_data_mode: Some(mode), ..*old(self) }),
            *final(self) == *final(r),
    {
        self.stream_data_mode = Some(mode);
        self
    }

    /// Set a flag indicating whether to preserve the unreferenced objects
    pub fn preserve_unreferenced_objects(&mut self, flag: bool) -> (r: &mut Self)
        ensures
            *r == (QPdfWriter { preserve_unreferenced_objects: Some(flag), ..*old(self) }),
            *final(self) == *final(r),
    {
        self.preserve_unreferenced_objects = Some(flag);
        self
    }

    /// Set a flag indicating whether to normalize contents
    pub fn normalize_content(&mut self, flag: bool) -> (r: &mut Self)
        ensures
            *r == (QPdfWriter { normalize_content: Some(flag), ..*old(self) }),
            *final(self) == *final(r),
    {
        self.normalize_content = Some(flag);
        self
    }

    /// Preserve or remove encryption
    pub fn preserve_encryption(&mut self, flag: bool) -> (r: &mut Self)
        ensures
            *r == (QPdfWriter { preserve_encryption: Some(flag), ..*old(self) }),
            *final(self) == *final(r),
    {
        self.preserve_encryption = Some(flag);
        self
    }

    /// Enable or disable linearization
    pub fn linearize(&mut self, flag: bool) -> (r: &mut Self)
        ensures
            *r == (QPdfWriter { linearize: Some(flag), ..*old(self) }),
            *final(self) == *final(r),
    {
        self.linearize = Some(flag);
        self
    }

    /// Enable or disable static ID
    pub fn static_id(&mut self, flag: bool) -> (r: &mut Self)
        ensures
            *r == (QPdfWriter { static_id: Some(flag), ..*old(self) }),
            *final(self) == *final(r),
    {
        self.static_id = Some(flag);
        self
    }

    /// Enable or disable deterministic ID
    pub fn deterministic_id(&mut self, flag: bool) -> (r: &mut Self)
        ensures
            *r == (QPdfWriter { deterministic_id: Some(flag), ..*old(self) }),
            *final(self) == *final(r),
    {
        self.deterministic_id = Some(flag);
        self
    }

    /// Set encryption parameters
    pub fn encryption_params(&mut self, params: EncryptionParams) -> (r: &mut Self)
        ensures
            *r == (QPdfWriter { encryption_params: Some(params), ..*old(self) }),
            *final(self) == *final(r),
    {
        self.encryption_params = Some(params);
        self
    }

    /// The setting of the staged option at position `i` of the order in
    /// which options are applied, if that option is staged
    fn option_setting(&self, i: usize) -> (r: Option<WriterSetting>)
        requires
            i < 12,
        ensures
            option_setting(*self, i as int) == match r {
                Some(x) => seq![x],
                None => Seq::<WriterSetting>::empty(),
            },
    {
        match i {
            0 => match self.compress_streams {
                Some(f) => Some(WriterSetting::CompressStreams(f)),
                None => None,
            },
            1 => match self.preserve_unreferenced_objects {
                Some(f) => Some(WriterSetting::PreserveUnreferencedObjects(f)),
                None => None,
            },
            2 => match self.normalize_content {
                Some(f) => Some(WriterSetting::ContentNormalization(f)),
                None => None,
            },
            3 => match self.preserve_encryption {
                Some(f) => Some(WriterSetting::PreserveEncryption(f)),
                None => None,
            },
            4 => match self.linearize {
                Some(f) => Some(WriterSetting::Linearization(f)),
                None => None,
            },
            5 => match self.static_id {
                Some(f) => Some(WriterSetting::StaticId(f)),
                None => None,
            },
            6 => match self.deterministic_id {
                Some(f) => Some(WriterSetting::DeterministicId(f)),
                None => None,
            },
            7 => match self.stream_decode_level {
                Some(l) => Some(WriterSetting::DecodeLevel(l)),
                None => None,
            },
            8 => match self.object_stream_mode {
                Some(m) => Some(WriterSetting::ObjectStreamMode(m)),
                None => None,
            },
            9 => match self.stream_data_mode {
                Some(m) => Some(WriterSetting::StreamDataMode(m)),
                None => None,
            },
            10 => match &self.min_pdf_version {
                Some(version) => Some(WriterSetting::MinimumPdfVersion(version.clone())),
                None => None,
            },
            _ => match &self.force_pdf_version {
                Some(version) => Some(WriterSetting::ForcePdfVersion(version.clone())),
                None => None,
            },
        }
    }

    /// The engine settings that writing applies, in order: each staged
    /// option once, the plain switches first, then the version constraints
    /// and the encryption, whose calls may be refused by the engine
    pub fn settings(&self) -> (r: Vec<WriterSetting>)
        ensures
            match self.encryption_params {
                None => r@ == plain_settings(*self),
                Some(p) => {
                    &&& r@.len() == plain_settings(*self).len() + 1
                    &&& r@.drop_last() == plain_settings(*self)
                    &&& r@.last() is Encryption
                    &&& encryption_arguments_of(p, r@.last()->Encryption_0)
                },
            },
    {
        let mut v: Vec<WriterSetting> = Vec::new();
        let mut i: usize = 0;
        while i < 12
            invariant
                i <= 12,
                v@ == settings_upto(*self, i as nat),
            decreases 12 - i,
        {
            let ghost before = v@;
            match self.option_setting(i) {
                Some(setting) => v.push(setting),
                None => {},
            }
            assert(v@ =~= before + option_setting(*self, i as int));
            i = i + 1;
        }
        if let Some(params) = &self.encryption_params {
            v.push(WriterSetting::Encryption(params.engine_arguments()));
            assert(v@.drop_last() =~= plain_settings(*self));
        }
        v
    }
}

/// The setting of one staged option: none where the option is not staged.
pub open spec fn option_setting<D>(w: QPdfWriter<D>, i: int) -> Seq<WriterSetting> {
    if i == 0 {
        match w.compress_streams { Some(f) => seq![WriterSetting::CompressStreams(f)], None => seq![] }
    } else if i == 1 {
        match w.preserve_unreferenced_objects { Some(f) => seq![WriterSetting::PreserveUnreferencedObjects(f)], None => seq![] }
    } else if i == 2 {
        match w.normalize_content { Some(f) => seq![WriterSetting::ContentNormalization(f)], None => seq![] }
    } else if i == 3 {
        match w.preserve_encryption { Some(f) => seq![WriterSetting::PreserveEncryption(f)], None => seq![] }
    } else if i == 4 {
        match w.linearize { Some(f) => seq![WriterSetting::Linearization(f)], None => seq![] }
    } else if i == 5 {
        match w.static_id { Some(f) => seq![WriterSetting::StaticId(f)], None => seq![] }
    } else if i == 6 {
        match w.deterministic_id { Some(f) => seq![WriterSetting::DeterministicId(f)], None => seq![] }
    } else if i == 7 {
        match w.stream_decode_level { Some(l) => seq![WriterSetting::DecodeLevel(l)], None => seq![] }
    } else if i == 8 {
        match w.object_stream_mode { Some(m) => seq![WriterSetting::ObjectStreamMode(m)], None => seq![] }
    } else if i == 9 {
        match w.stream_data_mode { Some(m) => seq![WriterSetting::StreamDataMode(m)], None => seq![] }
    } else if i == 10 {
        match w.min_pdf_version { Some(v) => seq![WriterSetting::MinimumPdfVersion(v)], None => seq![] }
    } else {
        match w.force_pdf_version { Some(v) => seq![WriterSetting::ForcePdfVersion(v)], None => seq![] }
    }
}

/// The settings of the first `n` staged options, in the order in which they
/// are applied.
pub open spec fn settings_upto<D>(w: QPdfWriter<D>, n: nat) -> Seq<WriterSetting>
    decreases n,
{
    if n == 0 {
        Seq::empty()
    } else {
        settings_upto(w, (n - 1) as nat) + option_setting(w, n - 1)
    }
}

/// The number of staged options other than encryption.
pub open spec fn plain_option_count() -> nat {
    12
}

/// The settings of a writer's staged options other than encryption, in the
/// order in which they are applied: compression, unreferenced objects,
/// content normalization, encryption preservation, linearization, static
/// ID, deterministic ID, decode level, object stream mode, stream data mode,
/// minimum version, forced version.
pub open spec fn plain_settings<D>(w: QPdfWriter<D>) -> Seq<WriterSetting> {
    settings_upto(w, plain_option_count())
}

/// Whether every string that a setting hands to the engine is free of NUL
/// characters.
pub open spec fn strings_ok(s: WriterSetting) -> bool {
    match s {
        WriterSetting::MinimumPdfVersion(v) => !has_nul(v@),
        WriterSetting::ForcePdfVersion(v) => !has_nul(v@),
        WriterSetting::Encryption(a) => !has_nul(a.user_password@) && !has_nul(a.owner_password@),
        _ => true,
    }
}

impl WriterSetting {
    /// Check the strings that this setting hands to the engine: one that
    /// holds a NUL character is refused with `InvalidParameter`
    pub fn check_strings(&self) -> (r: Result<(), QPdfError>)
        ensures
            r.is_ok() <==> strings_ok(*self),
            r.is_err() ==> r->Err_0.error_code == QPdfErrorCode::InvalidParameter,
            r.is_err() ==> r->Err_0.description.is_some() && r->Err_0.description.unwrap()@ == nul_description(),
            r.is_err() ==> r->Err_0.position.is_none(),
    {
        match self {
            WriterSetting::MinimumPdfVersion(v) => check_c_string(v.as_str()),
            WriterSetting::ForcePdfVersion(v) => check_c_string(v.as_str()),
            WriterSetting::Encryption(a) => {
                check_c_string(a.user_password.as_str())?;
                check_c_string(a.owner_password.as_str())
            },
            _ => Ok(()),
        }
    }
}

/// Every staged option is applied when writing: a forced version and
/// linearization staged on a writer are among the settings that writing
/// applies, whatever else is staged.
pub proof fn lemma_staged_options_applied<D>(w: QPdfWriter<D>, version: String)
    requires
        w.force_pdf_version == Some(version),
        w.linearize == Some(true),
    ensures
        plain_settings(w).contains(WriterSetting::ForcePdfVersion(version)),
        plain_settings(w).contains(WriterSetting::Linearization(true)),
{
    lemma_option_in_settings(w, 4, 12);
    lemma_option_in_settings(w, 11, 12);
    assert(option_setting(w, 4) =~= seq![WriterSetting::Linearization(true)]);
    assert(option_setting(w, 11) =~= seq![WriterSetting::ForcePdfVersion(version)]);
    assert(option_setting(w, 4).contains(WriterSetting::Linearization(true)));
    assert(option_setting(w, 11)[0] == WriterSetting::ForcePdfVersion(version));
}

proof fn lemma_option_in_settings<D>(w: QPdfWriter<D>, i: nat, n: nat)
    requires
        i < n,
    ensures
        forall|x: WriterSetting| option_setting(w, i as int).contains(x) ==> #[trigger] settings_upto(w, n).contains(x),
    decreases n,
{
    let prev = settings_upto(w, (n - 1) as nat);
    let here = option_setting(w, n - 1);
    assert(settings_upto(w, n) == prev + here);
    if i < n - 1 {
        lemma_option_in_settings(w, i, (n - 1) as nat);
        assert forall|x: WriterSetting| option_setting(w, i as int).contains(x) implies #[trigger] settings_upto(w, n).contains(x) by {
            assert(prev.contains(x));
            let k = choose|k: int| 0 <= k < prev.len() && prev[k] == x;
            assert((prev + here)[k] == x);
        }
    } else {
        assert forall|x: WriterSetting| option_setting(w, i as int).contains(x) implies #[trigger] settings_upto(w, n).contains(x) by {
            let k = choose|k: int| 0 <= k < here.len() && here[k] == x;
            assert((prev + here)[prev.len() + k] == x);
        }
    }
}

} // verus!
