use crate::error::{Error, ErrorKind};
use crate::header::index::{option_text, RTypeView};
use crate::header::tags::{SignatureTag, Tag};
use crate::header::Tags;
use crate::lead::{magic, padded_name, reserved_zeros, Lead, LeadView, Type};
use crate::rpm::file::RPMFile;
use vstd::prelude::*;

verus! {

/// Collects what is known of a package that is to be built.
#[derive(Debug, Clone)]
pub struct RPMBuilder {
    filename: Option<String>,
    package_name: Option<String>,
    version: Option<String>,
    release: String,
    epoch: u8,
    arch: String,
    package_group: Option<String>,
    license: Option<String>,
    source_rpm: Option<String>,
    build_time: i64,
    build_host: String,
    summary: Option<String>,
    description: Option<String>,
    packager: Option<String>,
    os: Option<String>,
    distribution: Option<String>,
    vendor: Option<String>,
    url: Option<String>,
    pre_install: Option<String>,
    post_install: Option<String>,
    pre_uninstall: Option<String>,
    post_uninstall: Option<String>,
    //  BINARY, SOURCE
    package_type: Option<String>,
    default_user: String,
    default_group: String,
    directories: Vec<String>,
    files: Vec<String>,
    links: Vec<String>,
    compression: String,
}

/// What a builder holds.
pub struct RPMBuilderView {
    pub filename: Option<Seq<char>>,
    pub package_name: Option<Seq<char>>,
    pub version: Option<Seq<char>>,
    pub release: Seq<char>,
    pub epoch: u8,
    pub arch: Seq<char>,
    pub package_group: Option<Seq<char>>,
    pub license: Option<Seq<char>>,
    pub source_rpm: Option<Seq<char>>,
    pub build_time: i64,
    pub build_host: Seq<char>,
    pub summary: Option<Seq<char>>,
    pub description: Option<Seq<char>>,
    pub packager: Option<Seq<char>>,
    pub os: Option<Seq<char>>,
    pub distribution: Option<Seq<char>>,
    pub vendor: Option<Seq<char>>,
    pub url: Option<Seq<char>>,
    pub pre_install: Option<Seq<char>>,
    pub post_install: Option<Seq<char>>,
    pub pre_uninstall: Option<Seq<char>>,
    pub post_uninstall: Option<Seq<char>>,
    pub package_type: Option<Seq<char>>,
    pub default_user: Seq<char>,
    pub default_group: Seq<char>,
    pub directories: Seq<Seq<char>>,
    pub files: Seq<Seq<char>>,
    pub links: Seq<Seq<char>>,
    pub compression: Seq<char>,
}

impl View for RPMBuilder {
    type V = RPMBuilderView;

    closed spec fn view(&self) -> RPMBuilderView {
        RPMBuilderView {
            filename: option_text(self.filename),
            package_name: option_text(self.package_name),
            version: option_text(self.version),
            release: self.release@,
            epoch: self.epoch,
            arch: self.arch@,
            package_group: option_text(self.package_group),
            license: option_text(self.license),
            source_rpm: option_text(self.source_rpm),
            build_time: self.build_time,
            build_host: self.build_host@,
            summary: option_text(self.summary),
            description: option_text(self.description),
            packager: option_text(self.packager),
            os: option_text(self.os),
            distribution: option_text(self.distribution),
            vendor: option_text(self.vendor),
            url: option_text(self.url),
            pre_install: option_text(self.pre_install),
            post_install: option_text(self.post_install),
            pre_uninstall: option_text(self.pre_uninstall),
            post_uninstall: option_text(self.post_uninstall),
            package_type: option_text(self.package_type),
            default_user: self.default_user@,
            default_group: self.default_group@,
            directories: self.directories.deep_view(),
            files: self.files.deep_view(),
            links: self.links.deep_view(),
            compression: self.compression@,
        }
    }
}

impl RPMBuilderView {
    /// A builder in which nothing is set.
    pub open spec fn empty() -> RPMBuilderView {
        RPMBuilderView {
            filename: None,
            package_name: None,
            version: None,
            release: Seq::empty(),
            epoch: 0,
            arch: Seq::empty(),
            package_group: None,
            license: None,
            source_rpm: None,
            build_time: 0,
            build_host: Seq::empty(),
            summary: None,
            description: None,
            packager: None,
            os: None,
            distribution: None,
            vendor: None,
            url: None,
            pre_install: None,
            post_install: None,
            pre_uninstall: None,
            post_uninstall: None,
            package_type: None,
            default_user: Seq::empty(),
            default_group: Seq::empty(),
            directories: Seq::empty(),
            files: Seq::empty(),
            links: Seq::empty(),
            compression: Seq::empty(),
        }
    }

    /// The builder that `new` makes when the clock reads `build_time` and
    /// the host is called `build_host`: release 1, no architecture, user
    /// and group `root`, compression `gzip`.
    pub open spec fn initial(build_time: i64, build_host: Seq<char>) -> RPMBuilderView {
        RPMBuilderView {
            epoch: 0,
            release: "1"@,
            arch: "noarch"@,
            build_host,
            build_time,
            default_user: "root"@,
            default_group: "root"@,
            compression: "gzip"@,
            ..RPMBuilderView::empty()
        }
    }
}

/// The seconds since 1970 that the clock of the host reads, through
/// `chrono::Utc::now` and `DateTime::timestamp`. Nothing is known of the
/// number.
#[verifier::external_body]
fn current_timestamp() -> (seconds: i64) {
    chrono::Utc::now().timestamp()
}

/// The name of the host through `hostname::get`; nothing where the host
/// gives none or one that is not Unicode. Nothing is known of the name.
#[verifier::external_body]
fn host_name() -> (name: Option<String>) {
    match hostname::get() {
        Ok(name) => name.into_string().ok(),
        Err(_) => None,
    }
}

/// The contents of the scriptlets of a package, as the host has read them.
pub struct Scriptlets {
    pub pre_install: Option<String>,
    pub post_install: Option<String>,
    pub pre_uninstall: Option<String>,
    pub post_uninstall: Option<String>,
}

/// `map` with `text` stored under `tag`, where there is a text.
pub open spec fn with_script(map: Map<Tag, RTypeView>, tag: Tag, text: Option<Seq<char>>) -> Map<
    Tag,
    RTypeView,
> {
    match text {
        Some(t) => map.insert(tag, RTypeView::String(t)),
        None => map,
    }
}

/// The text of an optional text, or the empty text.
pub open spec fn text_or_empty(text: Option<Seq<char>>) -> Seq<char> {
    match text {
        Some(t) => t,
        None => Seq::empty(),
    }
}

/// The metadata of the package that a builder describes. The release is
/// not among them.
pub open spec fn built_header(b: RPMBuilderView, scripts: Scriptlets) -> Map<Tag, RTypeView> {
    let base = Map::<Tag, RTypeView>::empty().insert(
        Tag::Name,
        RTypeView::String(text_or_empty(b.package_name)),
    ).insert(Tag::Epoch, RTypeView::Int8(b.epoch)).insert(
        Tag::Version,
        RTypeView::String(text_or_empty(b.version)),
    ).insert(Tag::Arch, RTypeView::String(b.arch)).insert(
        Tag::Group,
        RTypeView::String(text_or_empty(b.package_group)),
    ).insert(Tag::Size, RTypeView::Int64(0)).insert(
        Tag::License,
        RTypeView::String(text_or_empty(b.license)),
    ).insert(Tag::SourceRpm, RTypeView::String(text_or_empty(b.source_rpm))).insert(
        Tag::BuildTime,
        RTypeView::Int64(b.build_time as u64),
    ).insert(Tag::BuildHost, RTypeView::String(b.build_host)).insert(
        Tag::Summary,
        RTypeView::String(text_or_empty(b.summary)),
    ).insert(Tag::Description, RTypeView::String(text_or_empty(b.description))).insert(
        Tag::PayloadFormat,
        RTypeView::String("cpio"@),
    ).insert(Tag::PayloadCompressor, RTypeView::String(b.compression)).insert(
        Tag::PayloadFlags,
        RTypeView::String("6"@),
    );
    with_script(
        with_script(
            with_script(
                with_script(base, Tag::PreIn, option_text(scripts.pre_install)),
                Tag::PostIn,
                option_text(scripts.post_install),
            ),
            Tag::PreUn,
            option_text(scripts.pre_uninstall),
        ),
        Tag::PostUn,
        option_text(scripts.post_uninstall),
    )
}

/// A copy of an optional text.
fn clone_text(text: &Option<String>) -> (copy: Option<String>)
    ensures
        option_text(copy) == option_text(*text),
{
    match text {
        Some(t) => Some(t.clone()),
        None => None,
    }
}

/// The text, or the empty text where there is none.
fn unwrap_or_empty(text: Option<String>) -> (s: String)
    ensures
        s@ == text_or_empty(option_text(text)),
{
    match text {
        Some(t) => t,
        None => String::new(),
    }
}

/// Appends copies of the texts of `more` to `list`.
fn push_all(list: &mut Vec<String>, more: &Vec<&str>)
    ensures
        final(list).deep_view() == old(list).deep_view() + more.deep_view(),
{
    let mut i: usize = 0;
    let ghost start = list.deep_view();
    assert(list.deep_view() =~= start + more.deep_view().take(0));
    while i < more.len()
        invariant
            i <= more@.len(),
            list.deep_view() == start + more.deep_view().take(i as int),
        decreases more@.len() - i,
    {
        let ghost before = list.deep_view();
        list.push(more[i].to_owned());
        proof {
            assert(list.deep_view() =~= before.push(more@[i as int]@));
            assert(more.deep_view().take(i + 1) =~= more.deep_view().take(i as int).push(
                more@[i as int]@,
            ));
        }
        i = i + 1;
    }
    assert(more.deep_view().take(more@.len() as int) =~= more.deep_view());
}

/// Appends a copy of `text` to `list`.
fn push_one(list: &mut Vec<String>, text: &str)
    ensures
        final(list).deep_view() == old(list).deep_view().push(text@),
{
    let ghost before = list.deep_view();
    list.push(text.to_owned());
    assert(list.deep_view() =~= before.push(text@));
}

impl RPMBuilder {
    /// A builder for a package built now, on this host. Where the host has
    /// no name to give, the build host is left empty.
    pub fn new() -> (builder: Self)
        ensures
            builder@ == RPMBuilderView::initial(builder@.build_time, builder@.build_host),
    {
        let build_time = current_timestamp();
        let build_host = match host_name() {
            Some(name) => name,
            None => String::new(),
        };
        Self::with_environment(build_time, build_host)
    }

    /// A builder for a package built at `build_time` on `build_host`.
    pub fn with_environment(build_time: i64, build_host: String) -> (builder: Self)
        ensures
            builder@ == RPMBuilderView::initial(build_time, build_host@),
    {
        let builder = RPMBuilder {
            filename: None,
            package_name: None,
            version: None,
            release: "1".to_owned(),
            epoch: 0,
            arch: "noarch".to_owned(),
            package_group: None,
            license: None,
            source_rpm: None,
            build_time,
            build_host,
            summary: None,
            description: None,
            packager: None,
            os: None,
            distribution: None,
            vendor: None,
            url: None,
            pre_install: None,
            post_install: None,
            pre_uninstall: None,
            post_uninstall: None,
            package_type: None,
            default_user: "root".to_owned(),
            default_group: "root".to_owned(),
            directories: Vec::new(),
            files: Vec::new(),
            links: Vec::new(),
            compression: "gzip".to_owned(),
        };
        proof {
            assert(builder.directories.deep_view() =~= Seq::<Seq<char>>::empty());
            assert(builder.files.deep_view() =~= Seq::<Seq<char>>::empty());
            assert(builder.links.deep_view() =~= Seq::<Seq<char>>::empty());
        }
        builder
    }

    pub fn filename(self, file: &str) -> (builder: Self)
        ensures
            builder@ == (RPMBuilderView { filename: Some(file@), ..self@ }),
    {
        let mut builder = self;
        builder.filename = Some(file.to_owned());
        builder
    }

    pub fn package_name(self, name: &str) -> (builder: Self)
        ensures
            builder@ == (RPMBuilderView { package_name: Some(name@), ..self@ }),
    {
        let mut builder = self;
        builder.package_name = Some(name.to_owned());
        builder
    }

    pub fn version(self, version: &str) -> (builder: Self)
        ensures
            builder@ == (RPMBuilderView { version: Some(version@), ..self@ }),
    {
        let mut builder = self;
        builder.version = Some(version.to_owned());
        builder
    }

    pub fn release(self, release: &str) -> (builder: Self)
        ensures
            builder@ == (RPMBuilderView { release: release@, ..self@ }),
    {
        let mut builder = self;
        builder.release = release.to_owned();
        builder
    }

    pub fn epoch(self, epoch: u8) -> (builder: Self)
        ensures
            builder@ == (RPMBuilderView { epoch: epoch, ..self@ }),
    {
        let mut builder = self;
        builder.epoch = epoch;
        builder
    }

    pub fn arch(self, arch: &str) -> (builder: Self)
        ensures
            builder@ == (RPMBuilderView { arch: arch@, ..self@ }),
    {
        let mut builder = self;
        builder.arch = arch.to_owned();
        builder
    }

    pub fn package_group(self, group: String) -> (builder: Self)
        ensures
            builder@ == (RPMBuilderView { package_group: Some(group@), ..self@ }),
    {
        let mut builder = self;
        builder.package_group = Some(group);
        builder
    }

    pub fn license(self, license: String) -> (builder: Self)
        ensures
            builder@ == (RPMBuilderView { license: Some(license@), ..self@ }),
    {
        let mut builder = self;
        builder.license = Some(license);
        builder
    }

    pub fn source_rpm(self, source_rpm: String) -> (builder: Self)
        ensures
            builder@ == (RPMBuilderView { source_rpm: Some(source_rpm@), ..self@ }),
    {
        let mut builder = self;
        builder.source_rpm = Some(source_rpm);
        builder
    }

    pub fn build_time(self, build_time: i64) -> (builder: Self)
        ensures
            builder@ == (RPMBuilderView { build_time: build_time, ..self@ }),
    {
        let mut builder = self;
        builder.build_time = build_time;
        builder
    }

    pub fn summary(self, summary: &str) -> (builder: Self)
        ensures
            builder@ == (RPMBuilderView { summary: Some(summary@), ..self@ }),
    {
        let mut builder = self;
        builder.summary = Some(summary.to_owned());
        builder
    }

    pub fn description(self, description: &str) -> (builder: Self)
        ensures
            builder@ == (RPMBuilderView { description: Some(description@), ..self@ }),
    {
        let mut builder = self;
        builder.description = Some(description.to_owned());
        builder
    }

    pub fn build_host(self, build_host: &str) -> (builder: Self)
        ensures
            builder@ == (RPMBuilderView { build_host: build_host@, ..self@ }),
    {
        let mut builder = self;
        builder.build_host = build_host.to_owned();
        builder
    }

    pub fn default_user(self, user: &str) -> (builder: Self)
        ensures
            builder@ == (RPMBuilderView { default_user: user@, ..self@ }),
    {
        let mut builder = self;
        builder.default_user = user.to_owned();
        builder
    }

    pub fn default_group(self, group: &str) -> (builder: Self)
        ensures
            builder@ == (RPMBuilderView { default_group: group@, ..self@ }),
    {
        let mut builder = self;
        builder.default_group = group.to_owned();
        builder
    }

    pub fn compression(self, format: &str) -> (builder: Self)
        ensures
            builder@ == (RPMBuilderView { compression: format@, ..self@ }),
    {
        let mut builder = self;
        builder.compression = format.to_owned();
        builder
    }

    pub fn pre_install(self, file: &str) -> (builder: Self)
        ensures
            builder@ == (RPMBuilderView { pre_install: Some(file@), ..self@ }),
    {
        let mut builder = self;
        builder.pre_install = Some(file.to_owned());
        builder
    }

    pub fn post_install(self, file: &str) -> (builder: Self)
        ensures
            builder@ == (RPMBuilderView { post_install: Some(file@), ..self@ }),
    {
        let mut builder = self;
        builder.post_install = Some(file.to_owned());
        builder
    }

    pub fn pre_uninstall(self, file: &str) -> (builder: Self)
        ensures
            builder@ == (RPMBuilderView { pre_uninstall: Some(file@), ..self@ }),
    {
        let mut builder = self;
        builder.pre_uninstall = Some(file.to_owned());
        builder
    }

    pub fn post_uninstall(self, file: &str) -> (builder: Self)
        ensures
            builder@ == (RPMBuilderView { post_uninstall: Some(file@), ..self@ }),
    {
        let mut builder = self;
        builder.post_uninstall = Some(file.to_owned());
        builder
    }

    pub fn add_file(self, file: &str) -> (builder: Self)
        ensures
            builder@ == (RPMBuilderView { files: self@.files.push(file@), ..self@ }),
    {
        let mut builder = self;
        push_one(&mut builder.files, file);
        builder
    }

    pub fn add_files(self, files: Vec<&str>) -> (builder: Self)
        ensures
            builder@ == (RPMBuilderView { files: self@.files + files.deep_view(), ..self@ }),
    {
        let mut builder = self;
        push_all(&mut builder.files, &files);
        builder
    }

    pub fn add_directory(self, dir: &str) -> (builder: Self)
        ensures
            builder@ == (RPMBuilderView { directories: self@.directories.push(dir@), ..self@ }),
    {
        let mut builder = self;
        push_one(&mut builder.directories, dir);
        builder
    }

    pub fn add_directories(self, dirs: Vec<&str>) -> (builder: Self)
        ensures
            builder@ == (RPMBuilderView { directories: self@.directories + dirs.deep_view(), ..self@ }),
    {
        let mut builder = self;
        push_all(&mut builder.directories, &dirs);
        builder
    }

    pub fn add_link(self, link: &str) -> (builder: Self)
        ensures
            builder@ == (RPMBuilderView { links: self@.links.push(link@), ..self@ }),
    {
        let mut builder = self;
        push_one(&mut builder.links, link);
        builder
    }

    pub fn add_links(self, links: Vec<&str>) -> (builder: Self)
        ensures
            builder@ == (RPMBuilderView { links: self@.links + links.deep_view(), ..self@ }),
    {
        let mut builder = self;
        push_all(&mut builder.links, &links);
        builder
    }

    /// The name of the file that the package is to be written to, if it
    /// was given.
    pub fn output_file(&self) -> (name: Option<String>)
        ensures
            option_text(name) == self@.filename,
    {
        clone_text(&self.filename)
    }

    /// The names of the files that hold the four scriptlets, where they
    /// were given: before and after installing, before and after removing.
    pub fn script_files(&self) -> (names: Scriptlets)
        ensures
            option_text(names.pre_install) == self@.pre_install,
            option_text(names.post_install) == self@.post_install,
            option_text(names.pre_uninstall) == self@.pre_uninstall,
            option_text(names.post_uninstall) == self@.post_uninstall,
    {
        Scriptlets {
            pre_install: clone_text(&self.pre_install),
            post_install: clone_text(&self.post_install),
            pre_uninstall: clone_text(&self.pre_uninstall),
            post_uninstall: clone_text(&self.post_uninstall),
        }
    }

    /// The package that the builder describes, with `writer` as its sink
    /// and `scripts` as the contents of its scriptlets. A builder without
    /// the name of an output file, and a build time before 1970, are
    /// `InvalidInput`.
    pub fn build<T>(self, writer: T, scripts: Scriptlets) -> (r: Result<RPMFile<T>, Error>)
        ensures
            match r {
                Ok(rpm) => {
                    &&& self@.filename is Some
                    &&& self@.build_time >= 0
                    &&& rpm.file == writer
                    &&& rpm.payload_offset == 0
                    &&& rpm.lead@ == (LeadView {
                        magic: magic(),
                        major: 3,
                        minor: 1,
                        rpm_type: Type::Binary,
                        archnum: 0,
                        name: padded_name(
                            vstd::utf8::encode_utf8(text_or_empty(self@.package_name)),
                        ),
                        osnum: 0,
                        signature_type: 5,
                        reserved: reserved_zeros(),
                    })
                    &&& rpm.header_tags@ == built_header(self@, scripts)
                    &&& rpm.signature_tags@ == Map::<SignatureTag, RTypeView>::empty().insert(
                        SignatureTag::PayloadSize,
                        RTypeView::Int64(0),
                    )
                },
                Err(e) => (self@.filename is None || self@.build_time < 0) && e.kind
                    == ErrorKind::InvalidInput,
            },
    {
        if self.filename.is_none() {
            return Err(Error::new(ErrorKind::InvalidInput, "No rpm file is defined"));
        }
        if self.build_time < 0 {
            return Err(Error::new(ErrorKind::InvalidInput, "Timestamp is out of u64"));
        }
        let package_name = unwrap_or_empty(self.package_name);

        let mut header_tags = Tags::<Tag>::new();
        header_tags.insert_name(package_name.clone());
        header_tags.insert_epoch(self.epoch);
        header_tags.insert_version(unwrap_or_empty(self.version));
        header_tags.insert_arch(self.arch);
        header_tags.insert_group(unwrap_or_empty(self.package_group));
        header_tags.insert_size(0);
        header_tags.insert_license(unwrap_or_empty(self.license));
        header_tags.insert_source_rpm(unwrap_or_empty(self.source_rpm));
        header_tags.insert_build_time(self.build_time);
        header_tags.insert_build_host(self.build_host);
        header_tags.insert_summary(unwrap_or_empty(self.summary));
        header_tags.insert_description(unwrap_or_empty(self.description));
        header_tags.insert_payload_format("cpio".to_owned());
        header_tags.insert_payload_compressor(self.compression);
        header_tags.insert_payload_flags("6".to_owned());

        if let Some(contents) = scripts.pre_install {
            header_tags.insert_pre_install(contents);
        }
        if let Some(contents) = scripts.post_install {
            header_tags.insert_post_install(contents);
        }
        if let Some(contents) = scripts.pre_uninstall {
            header_tags.insert_pre_uninstall(contents);
        }
        if let Some(contents) = scripts.post_uninstall {
            header_tags.insert_post_uninstall(contents);
        }
        let mut signature_tags = Tags::<SignatureTag>::new();
        signature_tags.insert_payload_size(0);

        let lead = Lead::from_name(package_name.as_str());

        Ok(RPMFile { lead, header_tags, signature_tags, payload_offset: 0, file: writer })
    }
}

impl Default for RPMBuilder {
    /// A builder in which nothing is set.
    fn default() -> (builder: RPMBuilder)
        ensures
            builder@ == RPMBuilderView::empty(),
    {
        let builder = RPMBuilder {
            filename: None,
            package_name: None,
            version: None,
            release: String::new(),
            epoch: 0,
            arch: String::new(),
            package_group: None,
            license: None,
            source_rpm: None,
            build_time: 0,
            build_host: String::new(),
            summary: None,
            description: None,
            packager: None,
            os: None,
            distribution: None,
            vendor: None,
            url: None,
            pre_install: None,
            post_install: None,
            pre_uninstall: None,
            post_uninstall: None,
            package_type: None,
            default_user: String::new(),
            default_group: String::new(),
            directories: Vec::new(),
            files: Vec::new(),
            links: Vec::new(),
            compression: String::new(),
        };
        proof {
            assert(builder.directories.deep_view() =~= Seq::<Seq<char>>::empty());
            assert(builder.files.deep_view() =~= Seq::<Seq<char>>::empty());
            assert(builder.links.deep_view() =~= Seq::<Seq<char>>::empty());
        }
        builder
    }
}

} // verus!
