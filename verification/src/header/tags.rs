use vstd::prelude::*;

verus! {

/// A closed set of tags with their numbers on the wire, and a sentinel that
/// stands for every number outside the set.
pub trait TagNamespace: Copy {
    /// The number that stands for a tag on the wire; the sentinel has none.
    spec fn spec_to_u32(self) -> Option<u32>;

    /// The tag that a number stands for; an unknown number has none.
    spec fn spec_from_u32(id: u32) -> Option<Self>;

    /// The sentinel.
    spec fn unknown() -> Self;

    /// Every tag but the sentinel has a number, and that number stands for it.
    proof fn lemma_ids_round_trip(tag: Self)
        ensures
            tag == Self::unknown() <==> tag.spec_to_u32() is None,
            tag.spec_to_u32() matches Some(id) ==> Self::spec_from_u32(id) == Some(tag),
    ;

    fn to_u32(&self) -> (id: Option<u32>)
        ensures
            id == self.spec_to_u32(),
    ;

    fn from_u32(id: u32) -> (tag: Option<Self>)
        ensures
            tag == Self::spec_from_u32(id),
    ;

    /// The sentinel, which reading puts in place of an unknown number.
    fn other() -> (tag: Self)
        ensures
            tag == Self::unknown(),
    ;

    fn same(&self, other: &Self) -> (b: bool)
        ensures
            b == (*self == *other),
    ;
}

/// The tags of the metadata header.
#[derive(Debug, Copy, Clone, PartialEq, Eq, Hash, Structural)]
pub enum Tag {
    Image,
    Signatures,
    Immutable,
    Regions,
    I18nTable,
    Sigbase,
    Sigsize,
    Siglemd5_1,
    Sigpgp,
    Siglemd5_2,
    Sigmd5,
    Siggpg,
    Sigpgp5,
    Badsha1_1,
    Badsha1_2,
    Pubkeys,
    Dsaheader,
    Rsaheader,
    Sha1header,
    Longsigsize,
    Longarchivesize,
    Name,
    Version,
    Release,
    Epoch,
    Summary,
    Description,
    BuildTime,
    BuildHost,
    InstallTime,
    Size,
    Distribution,
    Vendor,
    Gif,
    Xpm,
    License,
    Packager,
    Group,
    Changelog,
    Source,
    Patch,
    Url,
    Os,
    Arch,
    PreIn,
    PostIn,
    PreUn,
    PostUn,
    OldFileNames,
    FileSizes,
    FilesStates,
    FileModes,
    FileUIDs,
    FileGids,
    FilerDevs,
    FileMTimes,
    FileMD5s,
    FileLinktos,
    FileFlags,
    Root,
    FileUserName,
    FileGroupName,
    Exclude,
    Exclusive,
    Icon,
    SourceRpm,
    FileVerifyFlags,
    ArchiveSize,
    ProvideName,
    RequireFlags,
    RequireName,
    RequireVersion,
    NoSource,
    NoPatch,
    Conflictflags,
    Conflictname,
    Conflictversion,
    DefaultPrefix,
    BuildRoot,
    Installprefix,
    Excludearch,
    Excludeos,
    Exclusivearch,
    Exclusiveos,
    Autoreqprov,
    Rpmversion,
    Triggerscripts,
    Triggername,
    Triggerversion,
    Triggerflags,
    Triggerindex,
    Verifyscript,
    Changelogtime,
    ChangelogName,
    Changelogtext,
    Brokenmd5,
    Prereq,
    Preinprog,
    Postinprog,
    Preunprog,
    Postunprog,
    BuildArchs,
    Obsoletename,
    Verifyscriptprog,
    Triggerscriptprog,
    DocDir,
    Cookie,
    FileDevices,
    FileInodes,
    FileLangs,
    Prefixes,
    InstPrefixes,
    Triggerin,
    Triggerun,
    Triggerpostun,
    Autoreq,
    Autoprov,
    Capability,
    Sourcepackage,
    Oldorigfilenames,
    Buildprereq,
    Buildrequires,
    Buildconflicts,
    Buildmacros,
    Provideflags,
    Provideversion,
    Obsoleteflags,
    Obsoleteversion,
    DirIndexes,
    BaseNames,
    DirNames,
    Origdirindexes,
    Origbasenames,
    Origdirnames,
    Optflags,
    Disturl,
    PayloadFormat,
    PayloadCompressor,
    PayloadFlags,
    InstallColor,
    InstallTid,
    Removetid,
    Sha1rhn,
    RHNPlatform,
    Platform,
    PatchesName,
    Catchesflags,
    Catchesversion,
    Cachectime,
    Cachepkgpath,
    Cachepkgsize,
    Cachepkgmtime,
    Filecolors,
    Fileclass,
    Classdict,
    Diledependsx,
    Filedependsn,
    Dependsdict,
    Sourcepkgid,
    FileContexts,
    FsContects,
    ReContexts,
    Policies,
    Posttrans,
    Pretransprog,
    Posttransprog,
    Disttag,
    Triggerprein,
    Dbinstance,
    Filenames,
    Fileprovide,
    Filerequire,
    Fsnames,
    Fssizes,
    Triggerconds,
    Triggertype,
    Origfilenames,
    Longfilesizes,
    Longsize,
    Filecaps,
    Filedigestalgo,
    Bugurl,
    Evr,
    Nvr,
    Nevr,
    Nevra,
    Headercolor,
    Verbose,
    Epochnum,
    Preinflags,
    Postinflags,
    Preunflags,
    Postunflags,
    Pretransflags,
    Posttransflags,
    Verifyscriptflags,
    Triggerscriptflags,
    Collections,
    Policynames,
    Policytypes,
    Policytypesindexes,
    Policyflags,
    Vcs,
    Ordername,
    Orderversion,
    Orderflags,
    Mssfmanifest,
    Mssfdomain,
    Instfilenames,
    Requirenevrs,
    Providenevrs,
    Obsoletenevrs,
    Conflictnevrs,
    Filenlinks,
    Recommendname,
    Recommendversion,
    Recommendflags,
    Suggestname,
    Suggestversion,
    Suggestflags,
    Supplementname,
    Supplementversion,
    Supplementflags,
    Enhancename,
    Enhanceversion,
    Enhanceflags,
    Recommendnevrs,
    Suggestnevrs,
    Supplementnevrs,
    Enhancenevrs,
    Encoding,
    Filetriggerin,
    Filetriggerun,
    Filetriggerpostun,
    Filetriggerscripts,
    Filetriggerscriptprog,
    Filetriggerscriptflags,
    Filetriggername,
    Filetriggerindex,
    Filetriggerversion,
    Filetriggerflags,
    Transfiletriggerin,
    Transfiletriggerun,
    Transfiletriggerpostun,
    Transfiletriggerscripts,
    Transfiletriggerscriptprog,
    Transfiletriggerscriptflags,
    Transfiletriggername,
    Transfiletriggerindex,
    Transfiletriggerversion,
    Transfiletriggerflags,
    Removepathpostfixes,
    Filetriggerpriorities,
    Transfiletriggerpriorities,
    Filetriggerconds,
    Filetriggertype,
    Transfiletriggerconds,
    Transfiletriggertype,
    Filesignatures,
    Filesignaturelength,
    Payloaddigest,
    Payloaddigestalgo,
    Autoinstalled,
    Identity,
    Modularitylabel,
    Other,
}

impl Tag {
    /// The number that stands for this tag on the wire; the sentinel has none.
    pub open spec fn wire_id(self) -> Option<u32> {
        match self {
            Tag::Image => Some(61),
            Tag::Signatures => Some(62),
            Tag::Immutable => Some(63),
            Tag::Regions => Some(64),
            Tag::I18nTable => Some(100),
            Tag::Sigbase => Some(256),
            Tag::Sigsize => Some(257),
            Tag::Siglemd5_1 => Some(258),
            Tag::Sigpgp => Some(259),
            Tag::Siglemd5_2 => Some(260),
            Tag::Sigmd5 => Some(261),
            Tag::Siggpg => Some(262),
            Tag::Sigpgp5 => Some(263),
            Tag::Badsha1_1 => Some(264),
            Tag::Badsha1_2 => Some(265),
            Tag::Pubkeys => Some(266),
            Tag::Dsaheader => Some(267),
            Tag::Rsaheader => Some(268),
            Tag::Sha1header => Some(269),
            Tag::Longsigsize => Some(270),
            Tag::Longarchivesize => Some(271),
            Tag::Name => Some(1000),
            Tag::Version => Some(1001),
            Tag::Release => Some(1002),
            Tag::Epoch => Some(1003),
            Tag::Summary => Some(1004),
            Tag::Description => Some(1005),
            Tag::BuildTime => Some(1006),
            Tag::BuildHost => Some(1007),
            Tag::InstallTime => Some(1008),
            Tag::Size => Some(1009),
            Tag::Distribution => Some(1010),
            Tag::Vendor => Some(1011),
            Tag::Gif => Some(1012),
            Tag::Xpm => Some(1013),
            Tag::License => Some(1014),
            Tag::Packager => Some(1015),
            Tag::Group => Some(1016),
            Tag::Changelog => Some(1017),
            Tag::Source => Some(1018),
            Tag::Patch => Some(1019),
            Tag::Url => Some(1020),
            Tag::Os => Some(1021),
            Tag::Arch => Some(1022),
            Tag::PreIn => Some(1023),
            Tag::PostIn => Some(1024),
            Tag::PreUn => Some(1025),
            Tag::PostUn => Some(1026),
            Tag::OldFileNames => Some(1027),
            Tag::FileSizes => Some(1028),
            Tag::FilesStates => Some(1029),
            Tag::FileModes => Some(1030),
            Tag::FileUIDs => Some(1031),
            Tag::FileGids => Some(1032),
            Tag::FilerDevs => Some(1033),
            Tag::FileMTimes => Some(1034),
            Tag::FileMD5s => Some(1035),
            Tag::FileLinktos => Some(1036),
            Tag::FileFlags => Some(1037),
            Tag::Root => Some(1038),
            Tag::FileUserName => Some(1039),
            Tag::FileGroupName => Some(1040),
            Tag::Exclude => Some(1041),
            Tag::Exclusive => Some(1042),
            Tag::Icon => Some(1043),
            Tag::SourceRpm => Some(1044),
            Tag::FileVerifyFlags => Some(1045),
            Tag::ArchiveSize => Some(1046),
            Tag::ProvideName => Some(1047),
            Tag::RequireFlags => Some(1048),
            Tag::RequireName => Some(1049),
            Tag::RequireVersion => Some(1050),
            Tag::NoSource => Some(1051),
            Tag::NoPatch => Some(1052),
            Tag::Conflictflags => Some(1053),
            Tag::Conflictname => Some(1054),
            Tag::Conflictversion => Some(1055),
            Tag::DefaultPrefix => Some(1056),
            Tag::BuildRoot => Some(1057),
            Tag::Installprefix => Some(1058),
            Tag::Excludearch => Some(1059),
            Tag::Excludeos => Some(1060),
            Tag::Exclusivearch => Some(1061),
            Tag::Exclusiveos => Some(1062),
            Tag::Autoreqprov => Some(1063),
            Tag::Rpmversion => Some(1064),
            Tag::Triggerscripts => Some(1065),
            Tag::Triggername => Some(1066),
            Tag::Triggerversion => Some(1067),
            Tag::Triggerflags => Some(1068),
            Tag::Triggerindex => Some(1069),
            Tag::Verifyscript => Some(1079),
            Tag::Changelogtime => Some(1080),
            Tag::ChangelogName => Some(1081),
            Tag::Changelogtext => Some(1082),
            Tag::Brokenmd5 => Some(1083),
            Tag::Prereq => Some(1084),
            Tag::Preinprog => Some(1085),
            Tag::Postinprog => Some(1086),
            Tag::Preunprog => Some(1087),
            Tag::Postunprog => Some(1088),
            Tag::BuildArchs => Some(1089),
            Tag::Obsoletename => Some(1090),
            Tag::Verifyscriptprog => Some(1091),
            Tag::Triggerscriptprog => Some(1092),
            Tag::DocDir => Some(1093),
            Tag::Cookie => Some(1094),
            Tag::FileDevices => Some(1095),
            Tag::FileInodes => Some(1096),
            Tag::FileLangs => Some(1097),
            Tag::Prefixes => Some(1098),
            Tag::InstPrefixes => Some(1099),
            Tag::Triggerin => Some(1100),
            Tag::Triggerun => Some(1101),
            Tag::Triggerpostun => Some(1102),
            Tag::Autoreq => Some(1103),
            Tag::Autoprov => Some(1104),
            Tag::Capability => Some(1105),
            Tag::Sourcepackage => Some(1106),
            Tag::Oldorigfilenames => Some(1107),
            Tag::Buildprereq => Some(1108),
            Tag::Buildrequires => Some(1109),
            Tag::Buildconflicts => Some(1110),
            Tag::Buildmacros => Some(1111),
            Tag::Provideflags => Some(1112),
            Tag::Provideversion => Some(1113),
            Tag::Obsoleteflags => Some(1114),
            Tag::Obsoleteversion => Some(1115),
            Tag::DirIndexes => Some(1116),
            Tag::BaseNames => Some(1117),
            Tag::DirNames => Some(1118),
            Tag::Origdirindexes => Some(1119),
            Tag::Origbasenames => Some(1120),
            Tag::Origdirnames => Some(1121),
            Tag::Optflags => Some(1122),
            Tag::Disturl => Some(1123),
            Tag::PayloadFormat => Some(1124),
            Tag::PayloadCompressor => Some(1125),
            Tag::PayloadFlags => Some(1126),
            Tag::InstallColor => Some(1127),
            Tag::InstallTid => Some(1128),
            Tag::Removetid => Some(1129),
            Tag::Sha1rhn => Some(1130),
            Tag::RHNPlatform => Some(1131),
            Tag::Platform => Some(1132),
            Tag::PatchesName => Some(1133),
            Tag::Catchesflags => Some(1134),
            Tag::Catchesversion => Some(1135),
            Tag::Cachectime => Some(1136),
            Tag::Cachepkgpath => Some(1137),
            Tag::Cachepkgsize => Some(1138),
            Tag::Cachepkgmtime => Some(1139),
            Tag::Filecolors => Some(1140),
            Tag::Fileclass => Some(1141),
            Tag::Classdict => Some(1142),
            Tag::Diledependsx => Some(1143),
            Tag::Filedependsn => Some(1144),
            Tag::Dependsdict => Some(1145),
            Tag::Sourcepkgid => Some(1146),
            Tag::FileContexts => Some(1147),
            Tag::FsContects => Some(1148),
            Tag::ReContexts => Some(1149),
            Tag::Policies => Some(1150),
            Tag::Posttrans => Some(1152),
            Tag::Pretransprog => Some(1153),
            Tag::Posttransprog => Some(1154),
            Tag::Disttag => Some(1155),
            Tag::Triggerprein => Some(1171),
            Tag::Dbinstance => Some(1195),
            Tag::Filenames => Some(5000),
            Tag::Fileprovide => Some(5001),
            Tag::Filerequire => Some(5002),
            Tag::Fsnames => Some(5003),
            Tag::Fssizes => Some(5004),
            Tag::Triggerconds => Some(5005),
            Tag::Triggertype => Some(5006),
            Tag::Origfilenames => Some(5007),
            Tag::Longfilesizes => Some(5008),
            Tag::Longsize => Some(5009),
            Tag::Filecaps => Some(5010),
            Tag::Filedigestalgo => Some(5011),
            Tag::Bugurl => Some(5012),
            Tag::Evr => Some(5013),
            Tag::Nvr => Some(5014),
            Tag::Nevr => Some(5015),
            Tag::Nevra => Some(5016),
            Tag::Headercolor => Some(5017),
            Tag::Verbose => Some(5018),
            Tag::Epochnum => Some(5019),
            Tag::Preinflags => Some(5020),
            Tag::Postinflags => Some(5021),
            Tag::Preunflags => Some(5022),
            Tag::Postunflags => Some(5023),
            Tag::Pretransflags => Some(5024),
            Tag::Posttransflags => Some(5025),
            Tag::Verifyscriptflags => Some(5026),
            Tag::Triggerscriptflags => Some(5027),
            Tag::Collections => Some(5029),
            Tag::Policynames => Some(5030),
            Tag::Policytypes => Some(5031),
            Tag::Policytypesindexes => Some(5032),
            Tag::Policyflags => Some(5033),
            Tag::Vcs => Some(5034),
            Tag::Ordername => Some(5035),
            Tag::Orderversion => Some(5036),
            Tag::Orderflags => Some(5037),
            Tag::Mssfmanifest => Some(5038),
            Tag::Mssfdomain => Some(5039),
            Tag::Instfilenames => Some(5040),
            Tag::Requirenevrs => Some(5041),
            Tag::Providenevrs => Some(5042),
            Tag::Obsoletenevrs => Some(5043),
            Tag::Conflictnevrs => Some(5044),
            Tag::Filenlinks => Some(5045),
            Tag::Recommendname => Some(5046),
            Tag::Recommendversion => Some(5047),
            Tag::Recommendflags => Some(5048),
            Tag::Suggestname => Some(5049),
            Tag::Suggestversion => Some(5050),
            Tag::Suggestflags => Some(5051),
            Tag::Supplementname => Some(5052),
            Tag::Supplementversion => Some(5053),
            Tag::Supplementflags => Some(5054),
            Tag::Enhancename => Some(5055),
            Tag::Enhanceversion => Some(5056),
            Tag::Enhanceflags => Some(5057),
            Tag::Recommendnevrs => Some(5058),
            Tag::Suggestnevrs => Some(5059),
            Tag::Supplementnevrs => Some(5060),
            Tag::Enhancenevrs => Some(5061),
            Tag::Encoding => Some(5062),
            Tag::Filetriggerin => Some(5063),
            Tag::Filetriggerun => Some(5064),
            Tag::Filetriggerpostun => Some(5065),
            Tag::Filetriggerscripts => Some(5066),
            Tag::Filetriggerscriptprog => Some(5067),
            Tag::Filetriggerscriptflags => Some(5068),
            Tag::Filetriggername => Some(5069),
            Tag::Filetriggerindex => Some(5070),
            Tag::Filetriggerversion => Some(5071),
            Tag::Filetriggerflags => Some(5072),
            Tag::Transfiletriggerin => Some(5073),
            Tag::Transfiletriggerun => Some(5074),
            Tag::Transfiletriggerpostun => Some(5075),
            Tag::Transfiletriggerscripts => Some(5076),
            Tag::Transfiletriggerscriptprog => Some(5077),
            Tag::Transfiletriggerscriptflags => Some(5078),
            Tag::Transfiletriggername => Some(5079),
            Tag::Transfiletriggerindex => Some(5080),
            Tag::Transfiletriggerversion => Some(5081),
            Tag::Transfiletriggerflags => Some(5082),
            Tag::Removepathpostfixes => Some(5083),
            Tag::Filetriggerpriorities => Some(5084),
            Tag::Transfiletriggerpriorities => Some(5085),
            Tag::Filetriggerconds => Some(5086),
            Tag::Filetriggertype => Some(5087),
            Tag::Transfiletriggerconds => Some(5088),
            Tag::Transfiletriggertype => Some(5089),
            Tag::Filesignatures => Some(5090),
            Tag::Filesignaturelength => Some(5091),
            Tag::Payloaddigest => Some(5092),
            Tag::Payloaddigestalgo => Some(5093),
            Tag::Autoinstalled => Some(5094),
            Tag::Identity => Some(5095),
            Tag::Modularitylabel => Some(5096),
            Tag::Other => None,
        }
    }

    /// The tags whose numbers lie between 61 and 1002.
    pub open spec fn of_wire_id_61_1002(id: u32) -> Option<Tag> {
        match id {
            61u32 => Some(Tag::Image),
            62u32 => Some(Tag::Signatures),
            63u32 => Some(Tag::Immutable),
            64u32 => Some(Tag::Regions),
            100u32 => Some(Tag::I18nTable),
            256u32 => Some(Tag::Sigbase),
            257u32 => Some(Tag::Sigsize),
            258u32 => Some(Tag::Siglemd5_1),
            259u32 => Some(Tag::Sigpgp),
            260u32 => Some(Tag::Siglemd5_2),
            261u32 => Some(Tag::Sigmd5),
            262u32 => Some(Tag::Siggpg),
            263u32 => Some(Tag::Sigpgp5),
            264u32 => Some(Tag::Badsha1_1),
            265u32 => Some(Tag::Badsha1_2),
            266u32 => Some(Tag::Pubkeys),
            267u32 => Some(Tag::Dsaheader),
            268u32 => Some(Tag::Rsaheader),
            269u32 => Some(Tag::Sha1header),
            270u32 => Some(Tag::Longsigsize),
            271u32 => Some(Tag::Longarchivesize),
            1000u32 => Some(Tag::Name),
            1001u32 => Some(Tag::Version),
            1002u32 => Some(Tag::Release),
            _ => None,
        }
    }

    fn from_u32_61_1002(id: u32) -> (tag: Option<Tag>)
        ensures
            tag == Self::of_wire_id_61_1002(id),
    {
        match id {
            61 => Some(Tag::Image),
            62 => Some(Tag::Signatures),
            63 => Some(Tag::Immutable),
            64 => Some(Tag::Regions),
            100 => Some(Tag::I18nTable),
            256 => Some(Tag::Sigbase),
            257 => Some(Tag::Sigsize),
            258 => Some(Tag::Siglemd5_1),
            259 => Some(Tag::Sigpgp),
            260 => Some(Tag::Siglemd5_2),
            261 => Some(Tag::Sigmd5),
            262 => Some(Tag::Siggpg),
            263 => Some(Tag::Sigpgp5),
            264 => Some(Tag::Badsha1_1),
            265 => Some(Tag::Badsha1_2),
            266 => Some(Tag::Pubkeys),
            267 => Some(Tag::Dsaheader),
            268 => Some(Tag::Rsaheader),
            269 => Some(Tag::Sha1header),
            270 => Some(Tag::Longsigsize),
            271 => Some(Tag::Longarchivesize),
            1000 => Some(Tag::Name),
            1001 => Some(Tag::Version),
            1002 => Some(Tag::Release),
            _ => None,
        }
    }

    /// The tags whose numbers lie between 1003 and 1026.
    pub open spec fn of_wire_id_1003_1026(id: u32) -> Option<Tag> {
        match id {
            1003u32 => Some(Tag::Epoch),
            1004u32 => Some(Tag::Summary),
            1005u32 => Some(Tag::Description),
            1006u32 => Some(Tag::BuildTime),
            1007u32 => Some(Tag::BuildHost),
            1008u32 => Some(Tag::InstallTime),
            1009u32 => Some(Tag::Size),
            1010u32 => Some(Tag::Distribution),
            1011u32 => Some(Tag::Vendor),
            1012u32 => Some(Tag::Gif),
            1013u32 => Some(Tag::Xpm),
            1014u32 => Some(Tag::License),
            1015u32 => Some(Tag::Packager),
            1016u32 => Some(Tag::Group),
            1017u32 => Some(Tag::Changelog),
            1018u32 => Some(Tag::Source),
            1019u32 => Some(Tag::Patch),
            1020u32 => Some(Tag::Url),
            1021u32 => Some(Tag::Os),
            1022u32 => Some(Tag::Arch),
            1023u32 => Some(Tag::PreIn),
            1024u32 => Some(Tag::PostIn),
            1025u32 => Some(Tag::PreUn),
            1026u32 => Some(Tag::PostUn),
            _ => None,
        }
    }

    fn from_u32_1003_1026(id: u32) -> (tag: Option<Tag>)
        ensures
            tag == Self::of_wire_id_1003_1026(id),
    {
        match id {
            1003 => Some(Tag::Epoch),
            1004 => Some(Tag::Summary),
            1005 => Some(Tag::Description),
            1006 => Some(Tag::BuildTime),
            1007 => Some(Tag::BuildHost),
            1008 => Some(Tag::InstallTime),
            1009 => Some(Tag::Size),
            1010 => Some(Tag::Distribution),
            1011 => Some(Tag::Vendor),
            1012 => Some(Tag::Gif),
            1013 => Some(Tag::Xpm),
            1014 => Some(Tag::License),
            1015 => Some(Tag::Packager),
            1016 => Some(Tag::Group),
            1017 => Some(Tag::Changelog),
            1018 => Some(Tag::Source),
            1019 => Some(Tag::Patch),
            1020 => Some(Tag::Url),
            1021 => Some(Tag::Os),
            1022 => Some(Tag::Arch),
            1023 => Some(Tag::PreIn),
            1024 => Some(Tag::PostIn),
            1025 => Some(Tag::PreUn),
            1026 => Some(Tag::PostUn),
            _ => None,
        }
    }

    /// The tags whose numbers lie between 1027 and 1050.
    pub open spec fn of_wire_id_1027_1050(id: u32) -> Option<Tag> {
        match id {
            1027u32 => Some(Tag::OldFileNames),
            1028u32 => Some(Tag::FileSizes),
            1029u32 => Some(Tag::FilesStates),
            1030u32 => Some(Tag::FileModes),
            1031u32 => Some(Tag::FileUIDs),
            1032u32 => Some(Tag::FileGids),
            1033u32 => Some(Tag::FilerDevs),
            1034u32 => Some(Tag::FileMTimes),
            1035u32 => Some(Tag::FileMD5s),
            1036u32 => Some(Tag::FileLinktos),
            1037u32 => Some(Tag::FileFlags),
            1038u32 => Some(Tag::Root),
            1039u32 => Some(Tag::FileUserName),
            1040u32 => Some(Tag::FileGroupName),
            1041u32 => Some(Tag::Exclude),
            1042u32 => Some(Tag::Exclusive),
            1043u32 => Some(Tag::Icon),
            1044u32 => Some(Tag::SourceRpm),
            1045u32 => Some(Tag::FileVerifyFlags),
            1046u32 => Some(Tag::ArchiveSize),
            1047u32 => Some(Tag::ProvideName),
            1048u32 => Some(Tag::RequireFlags),
            1049u32 => Some(Tag::RequireName),
            1050u32 => Some(Tag::RequireVersion),
            _ => None,
        }
    }

    fn from_u32_1027_1050(id: u32) -> (tag: Option<Tag>)
        ensures
            tag == Self::of_wire_id_1027_1050(id),
    {
        match id {
            1027 => Some(Tag::OldFileNames),
            1028 => Some(Tag::FileSizes),
            1029 => Some(Tag::FilesStates),
            1030 => Some(Tag::FileModes),
            1031 => Some(Tag::FileUIDs),
            1032 => Some(Tag::FileGids),
            1033 => Some(Tag::FilerDevs),
            1034 => Some(Tag::FileMTimes),
            1035 => Some(Tag::FileMD5s),
            1036 => Some(Tag::FileLinktos),
            1037 => Some(Tag::FileFlags),
            1038 => Some(Tag::Root),
            1039 => Some(Tag::FileUserName),
            1040 => Some(Tag::FileGroupName),
            1041 => Some(Tag::Exclude),
            1042 => Some(Tag::Exclusive),
            1043 => Some(Tag::Icon),
            1044 => Some(Tag::SourceRpm),
            1045 => Some(Tag::FileVerifyFlags),
            1046 => Some(Tag::ArchiveSize),
            1047 => Some(Tag::ProvideName),
            1048 => Some(Tag::RequireFlags),
            1049 => Some(Tag::RequireName),
            1050 => Some(Tag::RequireVersion),
            _ => None,
        }
    }

    /// The tags whose numbers lie between 1051 and 1083.
    pub open spec fn of_wire_id_1051_1083(id: u32) -> Option<Tag> {
        match id {
            1051u32 => Some(Tag::NoSource),
            1052u32 => Some(Tag::NoPatch),
            1053u32 => Some(Tag::Conflictflags),
            1054u32 => Some(Tag::Conflictname),
            1055u32 => Some(Tag::Conflictversion),
            1056u32 => Some(Tag::DefaultPrefix),
            1057u32 => Some(Tag::BuildRoot),
            1058u32 => Some(Tag::Installprefix),
            1059u32 => Some(Tag::Excludearch),
            1060u32 => Some(Tag::Excludeos),
            1061u32 => Some(Tag::Exclusivearch),
            1062u32 => Some(Tag::Exclusiveos),
            1063u32 => Some(Tag::Autoreqprov),
            1064u32 => Some(Tag::Rpmversion),
            1065u32 => Some(Tag::Triggerscripts),
            1066u32 => Some(Tag::Triggername),
            1067u32 => Some(Tag::Triggerversion),
            1068u32 => Some(Tag::Triggerflags),
            1069u32 => Some(Tag::Triggerindex),
            1079u32 => Some(Tag::Verifyscript),
            1080u32 => Some(Tag::Changelogtime),
            1081u32 => Some(Tag::ChangelogName),
            1082u32 => Some(Tag::Changelogtext),
            1083u32 => Some(Tag::Brokenmd5),
            _ => None,
        }
    }

    fn from_u32_1051_1083(id: u32) -> (tag: Option<Tag>)
        ensures
            tag == Self::of_wire_id_1051_1083(id),
    {
        match id {
            1051 => Some(Tag::NoSource),
            1052 => Some(Tag::NoPatch),
            1053 => Some(Tag::Conflictflags),
            1054 => Some(Tag::Conflictname),
            1055 => Some(Tag::Conflictversion),
            1056 => Some(Tag::DefaultPrefix),
            1057 => Some(Tag::BuildRoot),
            1058 => Some(Tag::Installprefix),
            1059 => Some(Tag::Excludearch),
            1060 => Some(Tag::Excludeos),
            1061 => Some(Tag::Exclusivearch),
            1062 => Some(Tag::Exclusiveos),
            1063 => Some(Tag::Autoreqprov),
            1064 => Some(Tag::Rpmversion),
            1065 => Some(Tag::Triggerscripts),
            1066 => Some(Tag::Triggername),
            1067 => Some(Tag::Triggerversion),
            1068 => Some(Tag::Triggerflags),
            1069 => Some(Tag::Triggerindex),
            1079 => Some(Tag::Verifyscript),
            1080 => Some(Tag::Changelogtime),
            1081 => Some(Tag::ChangelogName),
            1082 => Some(Tag::Changelogtext),
            1083 => Some(Tag::Brokenmd5),
            _ => None,
        }
    }

    /// The tags whose numbers lie between 1084 and 1107.
    pub open spec fn of_wire_id_1084_1107(id: u32) -> Option<Tag> {
        match id {
            1084u32 => Some(Tag::Prereq),
            1085u32 => Some(Tag::Preinprog),
            1086u32 => Some(Tag::Postinprog),
            1087u32 => Some(Tag::Preunprog),
            1088u32 => Some(Tag::Postunprog),
            1089u32 => Some(Tag::BuildArchs),
            1090u32 => Some(Tag::Obsoletename),
            1091u32 => Some(Tag::Verifyscriptprog),
            1092u32 => Some(Tag::Triggerscriptprog),
            1093u32 => Some(Tag::DocDir),
            1094u32 => Some(Tag::Cookie),
            1095u32 => Some(Tag::FileDevices),
            1096u32 => Some(Tag::FileInodes),
            1097u32 => Some(Tag::FileLangs),
            1098u32 => Some(Tag::Prefixes),
            1099u32 => Some(Tag::InstPrefixes),
            1100u32 => Some(Tag::Triggerin),
            1101u32 => Some(Tag::Triggerun),
            1102u32 => Some(Tag::Triggerpostun),
            1103u32 => Some(Tag::Autoreq),
            1104u32 => Some(Tag::Autoprov),
            1105u32 => Some(Tag::Capability),
            1106u32 => Some(Tag::Sourcepackage),
            1107u32 => Some(Tag::Oldorigfilenames),
            _ => None,
        }
    }

    fn from_u32_1084_1107(id: u32) -> (tag: Option<Tag>)
        ensures
            tag == Self::of_wire_id_1084_1107(id),
    {
        match id {
            1084 => Some(Tag::Prereq),
            1085 => Some(Tag::Preinprog),
            1086 => Some(Tag::Postinprog),
            1087 => Some(Tag::Preunprog),
            1088 => Some(Tag::Postunprog),
            1089 => Some(Tag::BuildArchs),
            1090 => Some(Tag::Obsoletename),
            1091 => Some(Tag::Verifyscriptprog),
            1092 => Some(Tag::Triggerscriptprog),
            1093 => Some(Tag::DocDir),
            1094 => Some(Tag::Cookie),
            1095 => Some(Tag::FileDevices),
            1096 => Some(Tag::FileInodes),
            1097 => Some(Tag::FileLangs),
            1098 => Some(Tag::Prefixes),
            1099 => Some(Tag::InstPrefixes),
            1100 => Some(Tag::Triggerin),
            1101 => Some(Tag::Triggerun),
            1102 => Some(Tag::Triggerpostun),
            1103 => Some(Tag::Autoreq),
            1104 => Some(Tag::Autoprov),
            1105 => Some(Tag::Capability),
            1106 => Some(Tag::Sourcepackage),
            1107 => Some(Tag::Oldorigfilenames),
            _ => None,
        }
    }

    /// The tags whose numbers lie between 1108 and 1131.
    pub open spec fn of_wire_id_1108_1131(id: u32) -> Option<Tag> {
        match id {
            1108u32 => Some(Tag::Buildprereq),
            1109u32 => Some(Tag::Buildrequires),
            1110u32 => Some(Tag::Buildconflicts),
            1111u32 => Some(Tag::Buildmacros),
            1112u32 => Some(Tag::Provideflags),
            1113u32 => Some(Tag::Provideversion),
            1114u32 => Some(Tag::Obsoleteflags),
            1115u32 => Some(Tag::Obsoleteversion),
            1116u32 => Some(Tag::DirIndexes),
            1117u32 => Some(Tag::BaseNames),
            1118u32 => Some(Tag::DirNames),
            1119u32 => Some(Tag::Origdirindexes),
            1120u32 => Some(Tag::Origbasenames),
            1121u32 => Some(Tag::Origdirnames),
            1122u32 => Some(Tag::Optflags),
            1123u32 => Some(Tag::Disturl),
            1124u32 => Some(Tag::PayloadFormat),
            1125u32 => Some(Tag::PayloadCompressor),
            1126u32 => Some(Tag::PayloadFlags),
            1127u32 => Some(Tag::InstallColor),
            1128u32 => Some(Tag::InstallTid),
            1129u32 => Some(Tag::Removetid),
            1130u32 => Some(Tag::Sha1rhn),
            1131u32 => Some(Tag::RHNPlatform),
            _ => None,
        }
    }

    fn from_u32_1108_1131(id: u32) -> (tag: Option<Tag>)
        ensures
            tag == Self::of_wire_id_1108_1131(id),
    {
        match id {
            1108 => Some(Tag::Buildprereq),
            1109 => Some(Tag::Buildrequires),
            1110 => Some(Tag::Buildconflicts),
            1111 => Some(Tag::Buildmacros),
            1112 => Some(Tag::Provideflags),
            1113 => Some(Tag::Provideversion),
            1114 => Some(Tag::Obsoleteflags),
            1115 => Some(Tag::Obsoleteversion),
            1116 => Some(Tag::DirIndexes),
            1117 => Some(Tag::BaseNames),
            1118 => Some(Tag::DirNames),
            1119 => Some(Tag::Origdirindexes),
            1120 => Some(Tag::Origbasenames),
            1121 => Some(Tag::Origdirnames),
            1122 => Some(Tag::Optflags),
            1123 => Some(Tag::Disturl),
            1124 => Some(Tag::PayloadFormat),
            1125 => Some(Tag::PayloadCompressor),
            1126 => Some(Tag::PayloadFlags),
            1127 => Some(Tag::InstallColor),
            1128 => Some(Tag::InstallTid),
            1129 => Some(Tag::Removetid),
            1130 => Some(Tag::Sha1rhn),
            1131 => Some(Tag::RHNPlatform),
            _ => None,
        }
    }

    /// The tags whose numbers lie between 1132 and 1171.
    pub open spec fn of_wire_id_1132_1171(id: u32) -> Option<Tag> {
        match id {
            1132u32 => Some(Tag::Platform),
            1133u32 => Some(Tag::PatchesName),
            1134u32 => Some(Tag::Catchesflags),
            1135u32 => Some(Tag::Catchesversion),
            1136u32 => Some(Tag::Cachectime),
            1137u32 => Some(Tag::Cachepkgpath),
            1138u32 => Some(Tag::Cachepkgsize),
            1139u32 => Some(Tag::Cachepkgmtime),
            1140u32 => Some(Tag::Filecolors),
            1141u32 => Some(Tag::Fileclass),
            1142u32 => Some(Tag::Classdict),
            1143u32 => Some(Tag::Diledependsx),
            1144u32 => Some(Tag::Filedependsn),
            1145u32 => Some(Tag::Dependsdict),
            1146u32 => Some(Tag::Sourcepkgid),
            1147u32 => Some(Tag::FileContexts),
            1148u32 => Some(Tag::FsContects),
            1149u32 => Some(Tag::ReContexts),
            1150u32 => Some(Tag::Policies),
            1152u32 => Some(Tag::Posttrans),
            1153u32 => Some(Tag::Pretransprog),
            1154u32 => Some(Tag::Posttransprog),
            1155u32 => Some(Tag::Disttag),
            1171u32 => Some(Tag::Triggerprein),
            _ => None,
        }
    }

    fn from_u32_1132_1171(id: u32) -> (tag: Option<Tag>)
        ensures
            tag == Self::of_wire_id_1132_1171(id),
    {
        match id {
            1132 => Some(Tag::Platform),
            1133 => Some(Tag::PatchesName),
            1134 => Some(Tag::Catchesflags),
            1135 => Some(Tag::Catchesversion),
            1136 => Some(Tag::Cachectime),
            1137 => Some(Tag::Cachepkgpath),
            1138 => Some(Tag::Cachepkgsize),
            1139 => Some(Tag::Cachepkgmtime),
            1140 => Some(Tag::Filecolors),
            1141 => Some(Tag::Fileclass),
            1142 => Some(Tag::Classdict),
            1143 => Some(Tag::Diledependsx),
            1144 => Some(Tag::Filedependsn),
            1145 => Some(Tag::Dependsdict),
            1146 => Some(Tag::Sourcepkgid),
            1147 => Some(Tag::FileContexts),
            1148 => Some(Tag::FsContects),
            1149 => Some(Tag::ReContexts),
            1150 => Some(Tag::Policies),
            1152 => Some(Tag::Posttrans),
            1153 => Some(Tag::Pretransprog),
            1154 => Some(Tag::Posttransprog),
            1155 => Some(Tag::Disttag),
            1171 => Some(Tag::Triggerprein),
            _ => None,
        }
    }

    /// The tags whose numbers lie between 1195 and 5022.
    pub open spec fn of_wire_id_1195_5022(id: u32) -> Option<Tag> {
        match id {
            1195u32 => Some(Tag::Dbinstance),
            5000u32 => Some(Tag::Filenames),
            5001u32 => Some(Tag::Fileprovide),
            5002u32 => Some(Tag::Filerequire),
            5003u32 => Some(Tag::Fsnames),
            5004u32 => Some(Tag::Fssizes),
            5005u32 => Some(Tag::Triggerconds),
            5006u32 => Some(Tag::Triggertype),
            5007u32 => Some(Tag::Origfilenames),
            5008u32 => Some(Tag::Longfilesizes),
            5009u32 => Some(Tag::Longsize),
            5010u32 => Some(Tag::Filecaps),
            5011u32 => Some(Tag::Filedigestalgo),
            5012u32 => Some(Tag::Bugurl),
            5013u32 => Some(Tag::Evr),
            5014u32 => Some(Tag::Nvr),
            5015u32 => Some(Tag::Nevr),
            5016u32 => Some(Tag::Nevra),
            5017u32 => Some(Tag::Headercolor),
            5018u32 => Some(Tag::Verbose),
            5019u32 => Some(Tag::Epochnum),
            5020u32 => Some(Tag::Preinflags),
            5021u32 => Some(Tag::Postinflags),
            5022u32 => Some(Tag::Preunflags),
            _ => None,
        }
    }

    fn from_u32_1195_5022(id: u32) -> (tag: Option<Tag>)
        ensures
            tag == Self::of_wire_id_1195_5022(id),
    {
        match id {
            1195 => Some(Tag::Dbinstance),
            5000 => Some(Tag::Filenames),
            5001 => Some(Tag::Fileprovide),
            5002 => Some(Tag::Filerequire),
            5003 => Some(Tag::Fsnames),
            5004 => Some(Tag::Fssizes),
            5005 => Some(Tag::Triggerconds),
            5006 => Some(Tag::Triggertype),
            5007 => Some(Tag::Origfilenames),
            5008 => Some(Tag::Longfilesizes),
            5009 => Some(Tag::Longsize),
            5010 => Some(Tag::Filecaps),
            5011 => Some(Tag::Filedigestalgo),
            5012 => Some(Tag::Bugurl),
            5013 => Some(Tag::Evr),
            5014 => Some(Tag::Nvr),
            5015 => Some(Tag::Nevr),
            5016 => Some(Tag::Nevra),
            5017 => Some(Tag::Headercolor),
            5018 => Some(Tag::Verbose),
            5019 => Some(Tag::Epochnum),
            5020 => Some(Tag::Preinflags),
            5021 => Some(Tag::Postinflags),
            5022 => Some(Tag::Preunflags),
            _ => None,
        }
    }

    /// The tags whose numbers lie between 5023 and 5047.
    pub open spec fn of_wire_id_5023_5047(id: u32) -> Option<Tag> {
        match id {
            5023u32 => Some(Tag::Postunflags),
            5024u32 => Some(Tag::Pretransflags),
            5025u32 => Some(Tag::Posttransflags),
            5026u32 => Some(Tag::Verifyscriptflags),
            5027u32 => Some(Tag::Triggerscriptflags),
            5029u32 => Some(Tag::Collections),
            5030u32 => Some(Tag::Policynames),
            5031u32 => Some(Tag::Policytypes),
            5032u32 => Some(Tag::Policytypesindexes),
            5033u32 => Some(Tag::Policyflags),
            5034u32 => Some(Tag::Vcs),
            5035u32 => Some(Tag::Ordername),
            5036u32 => Some(Tag::Orderversion),
            5037u32 => Some(Tag::Orderflags),
            5038u32 => Some(Tag::Mssfmanifest),
            5039u32 => Some(Tag::Mssfdomain),
            5040u32 => Some(Tag::Instfilenames),
            5041u32 => Some(Tag::Requirenevrs),
            5042u32 => Some(Tag::Providenevrs),
            5043u32 => Some(Tag::Obsoletenevrs),
            5044u32 => Some(Tag::Conflictnevrs),
            5045u32 => Some(Tag::Filenlinks),
            5046u32 => Some(Tag::Recommendname),
            5047u32 => Some(Tag::Recommendversion),
            _ => None,
        }
    }

    fn from_u32_5023_5047(id: u32) -> (tag: Option<Tag>)
        ensures
            tag == Self::of_wire_id_5023_5047(id),
    {
        match id {
            5023 => Some(Tag::Postunflags),
            5024 => Some(Tag::Pretransflags),
            5025 => Some(Tag::Posttransflags),
            5026 => Some(Tag::Verifyscriptflags),
            5027 => Some(Tag::Triggerscriptflags),
            5029 => Some(Tag::Collections),
            5030 => Some(Tag::Policynames),
            5031 => Some(Tag::Policytypes),
            5032 => Some(Tag::Policytypesindexes),
            5033 => Some(Tag::Policyflags),
            5034 => Some(Tag::Vcs),
            5035 => Some(Tag::Ordername),
            5036 => Some(Tag::Orderversion),
            5037 => Some(Tag::Orderflags),
            5038 => Some(Tag::Mssfmanifest),
            5039 => Some(Tag::Mssfdomain),
            5040 => Some(Tag::Instfilenames),
            5041 => Some(Tag::Requirenevrs),
            5042 => Some(Tag::Providenevrs),
            5043 => Some(Tag::Obsoletenevrs),
            5044 => Some(Tag::Conflictnevrs),
            5045 => Some(Tag::Filenlinks),
            5046 => Some(Tag::Recommendname),
            5047 => Some(Tag::Recommendversion),
            _ => None,
        }
    }

    /// The tags whose numbers lie between 5048 and 5071.
    pub open spec fn of_wire_id_5048_5071(id: u32) -> Option<Tag> {
        match id {
            5048u32 => Some(Tag::Recommendflags),
            5049u32 => Some(Tag::Suggestname),
            5050u32 => Some(Tag::Suggestversion),
            5051u32 => Some(Tag::Suggestflags),
            5052u32 => Some(Tag::Supplementname),
            5053u32 => Some(Tag::Supplementversion),
            5054u32 => Some(Tag::Supplementflags),
            5055u32 => Some(Tag::Enhancename),
            5056u32 => Some(Tag::Enhanceversion),
            5057u32 => Some(Tag::Enhanceflags),
            5058u32 => Some(Tag::Recommendnevrs),
            5059u32 => Some(Tag::Suggestnevrs),
            5060u32 => Some(Tag::Supplementnevrs),
            5061u32 => Some(Tag::Enhancenevrs),
            5062u32 => Some(Tag::Encoding),
            5063u32 => Some(Tag::Filetriggerin),
            5064u32 => Some(Tag::Filetriggerun),
            5065u32 => Some(Tag::Filetriggerpostun),
            5066u32 => Some(Tag::Filetriggerscripts),
            5067u32 => Some(Tag::Filetriggerscriptprog),
            5068u32 => Some(Tag::Filetriggerscriptflags),
            5069u32 => Some(Tag::Filetriggername),
            5070u32 => Some(Tag::Filetriggerindex),
            5071u32 => Some(Tag::Filetriggerversion),
            _ => None,
        }
    }

    fn from_u32_5048_5071(id: u32) -> (tag: Option<Tag>)
        ensures
            tag == Self::of_wire_id_5048_5071(id),
    {
        match id {
            5048 => Some(Tag::Recommendflags),
            5049 => Some(Tag::Suggestname),
            5050 => Some(Tag::Suggestversion),
            5051 => Some(Tag::Suggestflags),
            5052 => Some(Tag::Supplementname),
            5053 => Some(Tag::Supplementversion),
            5054 => Some(Tag::Supplementflags),
            5055 => Some(Tag::Enhancename),
            5056 => Some(Tag::Enhanceversion),
            5057 => Some(Tag::Enhanceflags),
            5058 => Some(Tag::Recommendnevrs),
            5059 => Some(Tag::Suggestnevrs),
            5060 => Some(Tag::Supplementnevrs),
            5061 => Some(Tag::Enhancenevrs),
            5062 => Some(Tag::Encoding),
            5063 => Some(Tag::Filetriggerin),
            5064 => Some(Tag::Filetriggerun),
            5065 => Some(Tag::Filetriggerpostun),
            5066 => Some(Tag::Filetriggerscripts),
            5067 => Some(Tag::Filetriggerscriptprog),
            5068 => Some(Tag::Filetriggerscriptflags),
            5069 => Some(Tag::Filetriggername),
            5070 => Some(Tag::Filetriggerindex),
            5071 => Some(Tag::Filetriggerversion),
            _ => None,
        }
    }

    /// The tags whose numbers lie between 5072 and 5095.
    pub open spec fn of_wire_id_5072_5095(id: u32) -> Option<Tag> {
        match id {
            5072u32 => Some(Tag::Filetriggerflags),
            5073u32 => Some(Tag::Transfiletriggerin),
            5074u32 => Some(Tag::Transfiletriggerun),
            5075u32 => Some(Tag::Transfiletriggerpostun),
            5076u32 => Some(Tag::Transfiletriggerscripts),
            5077u32 => Some(Tag::Transfiletriggerscriptprog),
            5078u32 => Some(Tag::Transfiletriggerscriptflags),
            5079u32 => Some(Tag::Transfiletriggername),
            5080u32 => Some(Tag::Transfiletriggerindex),
            5081u32 => Some(Tag::Transfiletriggerversion),
            5082u32 => Some(Tag::Transfiletriggerflags),
            5083u32 => Some(Tag::Removepathpostfixes),
            5084u32 => Some(Tag::Filetriggerpriorities),
            5085u32 => Some(Tag::Transfiletriggerpriorities),
            5086u32 => Some(Tag::Filetriggerconds),
            5087u32 => Some(Tag::Filetriggertype),
            5088u32 => Some(Tag::Transfiletriggerconds),
            5089u32 => Some(Tag::Transfiletriggertype),
            5090u32 => Some(Tag::Filesignatures),
            5091u32 => Some(Tag::Filesignaturelength),
            5092u32 => Some(Tag::Payloaddigest),
            5093u32 => Some(Tag::Payloaddigestalgo),
            5094u32 => Some(Tag::Autoinstalled),
            5095u32 => Some(Tag::Identity),
            _ => None,
        }
    }

    fn from_u32_5072_5095(id: u32) -> (tag: Option<Tag>)
        ensures
            tag == Self::of_wire_id_5072_5095(id),
    {
        match id {
            5072 => Some(Tag::Filetriggerflags),
            5073 => Some(Tag::Transfiletriggerin),
            5074 => Some(Tag::Transfiletriggerun),
            5075 => Some(Tag::Transfiletriggerpostun),
            5076 => Some(Tag::Transfiletriggerscripts),
            5077 => Some(Tag::Transfiletriggerscriptprog),
            5078 => Some(Tag::Transfiletriggerscriptflags),
            5079 => Some(Tag::Transfiletriggername),
            5080 => Some(Tag::Transfiletriggerindex),
            5081 => Some(Tag::Transfiletriggerversion),
            5082 => Some(Tag::Transfiletriggerflags),
            5083 => Some(Tag::Removepathpostfixes),
            5084 => Some(Tag::Filetriggerpriorities),
            5085 => Some(Tag::Transfiletriggerpriorities),
            5086 => Some(Tag::Filetriggerconds),
            5087 => Some(Tag::Filetriggertype),
            5088 => Some(Tag::Transfiletriggerconds),
            5089 => Some(Tag::Transfiletriggertype),
            5090 => Some(Tag::Filesignatures),
            5091 => Some(Tag::Filesignaturelength),
            5092 => Some(Tag::Payloaddigest),
            5093 => Some(Tag::Payloaddigestalgo),
            5094 => Some(Tag::Autoinstalled),
            5095 => Some(Tag::Identity),
            _ => None,
        }
    }

    /// The tags whose numbers lie between 5096 and 5096.
    pub open spec fn of_wire_id_5096_5096(id: u32) -> Option<Tag> {
        match id {
            5096u32 => Some(Tag::Modularitylabel),
            _ => None,
        }
    }

    fn from_u32_5096_5096(id: u32) -> (tag: Option<Tag>)
        ensures
            tag == Self::of_wire_id_5096_5096(id),
    {
        match id {
            5096 => Some(Tag::Modularitylabel),
            _ => None,
        }
    }

    /// The tag that a number on the wire stands for, if it is a known one.
    pub open spec fn of_wire_id(id: u32) -> Option<Tag> {
        if id <= 1002 {
            Self::of_wire_id_61_1002(id)
        } else if id <= 1026 {
            Self::of_wire_id_1003_1026(id)
        } else if id <= 1050 {
            Self::of_wire_id_1027_1050(id)
        } else if id <= 1083 {
            Self::of_wire_id_1051_1083(id)
        } else if id <= 1107 {
            Self::of_wire_id_1084_1107(id)
        } else if id <= 1131 {
            Self::of_wire_id_1108_1131(id)
        } else if id <= 1171 {
            Self::of_wire_id_1132_1171(id)
        } else if id <= 5022 {
            Self::of_wire_id_1195_5022(id)
        } else if id <= 5047 {
            Self::of_wire_id_5023_5047(id)
        } else if id <= 5071 {
            Self::of_wire_id_5048_5071(id)
        } else if id <= 5095 {
            Self::of_wire_id_5072_5095(id)
        } else {
            Self::of_wire_id_5096_5096(id)
        }
    }
}

impl TagNamespace for Tag {
    open spec fn spec_to_u32(self) -> Option<u32> {
        self.wire_id()
    }

    open spec fn spec_from_u32(id: u32) -> Option<Self> {
        Self::of_wire_id(id)
    }

    open spec fn unknown() -> Self {
        Tag::Other
    }

    proof fn lemma_ids_round_trip(tag: Self) {
        match tag {
            Tag::Image => {
                assert(Tag::of_wire_id_61_1002(61) == Some(Tag::Image));
            },
            Tag::Signatures => {
                assert(Tag::of_wire_id_61_1002(62) == Some(Tag::Signatures));
            },
            Tag::Immutable => {
                assert(Tag::of_wire_id_61_1002(63) == Some(Tag::Immutable));
            },
            Tag::Regions => {
                assert(Tag::of_wire_id_61_1002(64) == Some(Tag::Regions));
            },
            Tag::I18nTable => {
                assert(Tag::of_wire_id_61_1002(100) == Some(Tag::I18nTable));
            },
            Tag::Sigbase => {
                assert(Tag::of_wire_id_61_1002(256) == Some(Tag::Sigbase));
            },
            Tag::Sigsize => {
                assert(Tag::of_wire_id_61_1002(257) == Some(Tag::Sigsize));
            },
            Tag::Siglemd5_1 => {
                assert(Tag::of_wire_id_61_1002(258) == Some(Tag::Siglemd5_1));
            },
            Tag::Sigpgp => {
                assert(Tag::of_wire_id_61_1002(259) == Some(Tag::Sigpgp));
            },
            Tag::Siglemd5_2 => {
                assert(Tag::of_wire_id_61_1002(260) == Some(Tag::Siglemd5_2));
            },
            Tag::Sigmd5 => {
                assert(Tag::of_wire_id_61_1002(261) == Some(Tag::Sigmd5));
            },
            Tag::Siggpg => {
                assert(Tag::of_wire_id_61_1002(262) == Some(Tag::Siggpg));
            },
            Tag::Sigpgp5 => {
                assert(Tag::of_wire_id_61_1002(263) == Some(Tag::Sigpgp5));
            },
            Tag::Badsha1_1 => {
                assert(Tag::of_wire_id_61_1002(264) == Some(Tag::Badsha1_1));
            },
            Tag::Badsha1_2 => {
                assert(Tag::of_wire_id_61_1002(265) == Some(Tag::Badsha1_2));
            },
            Tag::Pubkeys => {
                assert(Tag::of_wire_id_61_1002(266) == Some(Tag::Pubkeys));
            },
            Tag::Dsaheader => {
                assert(Tag::of_wire_id_61_1002(267) == Some(Tag::Dsaheader));
            },
            Tag::Rsaheader => {
                assert(Tag::of_wire_id_61_1002(268) == Some(Tag::Rsaheader));
            },
            Tag::Sha1header => {
                assert(Tag::of_wire_id_61_1002(269) == Some(Tag::Sha1header));
            },
            Tag::Longsigsize => {
                assert(Tag::of_wire_id_61_1002(270) == Some(Tag::Longsigsize));
            },
            Tag::Longarchivesize => {
                assert(Tag::of_wire_id_61_1002(271) == Some(Tag::Longarchivesize));
            },
            Tag::Name => {
                assert(Tag::of_wire_id_61_1002(1000) == Some(Tag::Name));
            },
            Tag::Version => {
                assert(Tag::of_wire_id_61_1002(1001) == Some(Tag::Version));
            },
            Tag::Release => {
                assert(Tag::of_wire_id_61_1002(1002) == Some(Tag::Release));
            },
            Tag::Epoch => {
                assert(Tag::of_wire_id_1003_1026(1003) == Some(Tag::Epoch));
            },
            Tag::Summary => {
                assert(Tag::of_wire_id_1003_1026(1004) == Some(Tag::Summary));
            },
            Tag::Description => {
                assert(Tag::of_wire_id_1003_1026(1005) == Some(Tag::Description));
            },
            Tag::BuildTime => {
                assert(Tag::of_wire_id_1003_1026(1006) == Some(Tag::BuildTime));
            },
            Tag::BuildHost => {
                assert(Tag::of_wire_id_1003_1026(1007) == Some(Tag::BuildHost));
            },
            Tag::InstallTime => {
                assert(Tag::of_wire_id_1003_1026(1008) == Some(Tag::InstallTime));
            },
            Tag::Size => {
                assert(Tag::of_wire_id_1003_1026(1009) == Some(Tag::Size));
            },
            Tag::Distribution => {
                assert(Tag::of_wire_id_1003_1026(1010) == Some(Tag::Distribution));
            },
            Tag::Vendor => {
                assert(Tag::of_wire_id_1003_1026(1011) == Some(Tag::Vendor));
            },
            Tag::Gif => {
                assert(Tag::of_wire_id_1003_1026(1012) == Some(Tag::Gif));
            },
            Tag::Xpm => {
                assert(Tag::of_wire_id_1003_1026(1013) == Some(Tag::Xpm));
            },
            Tag::License => {
                assert(Tag::of_wire_id_1003_1026(1014) == Some(Tag::License));
            },
            Tag::Packager => {
                assert(Tag::of_wire_id_1003_1026(1015) == Some(Tag::Packager));
            },
            Tag::Group => {
                assert(Tag::of_wire_id_1003_1026(1016) == Some(Tag::Group));
            },
            Tag::Changelog => {
                assert(Tag::of_wire_id_1003_1026(1017) == Some(Tag::Changelog));
            },
            Tag::Source => {
                assert(Tag::of_wire_id_1003_1026(1018) == Some(Tag::Source));
            },
            Tag::Patch => {
                assert(Tag::of_wire_id_1003_1026(1019) == Some(Tag::Patch));
            },
            Tag::Url => {
                assert(Tag::of_wire_id_1003_1026(1020) == Some(Tag::Url));
            },
            Tag::Os => {
                assert(Tag::of_wire_id_1003_1026(1021) == Some(Tag::Os));
            },
            Tag::Arch => {
                assert(Tag::of_wire_id_1003_1026(1022) == Some(Tag::Arch));
            },
            Tag::PreIn => {
                assert(Tag::of_wire_id_1003_1026(1023) == Some(Tag::PreIn));
            },
            Tag::PostIn => {
                assert(Tag::of_wire_id_1003_1026(1024) == Some(Tag::PostIn));
            },
            Tag::PreUn => {
                assert(Tag::of_wire_id_1003_1026(1025) == Some(Tag::PreUn));
            },
            Tag::PostUn => {
                assert(Tag::of_wire_id_1003_1026(1026) == Some(Tag::PostUn));
            },
            Tag::OldFileNames => {
                assert(Tag::of_wire_id_1027_1050(1027) == Some(Tag::OldFileNames));
            },
            Tag::FileSizes => {
                assert(Tag::of_wire_id_1027_1050(1028) == Some(Tag::FileSizes));
            },
            Tag::FilesStates => {
                assert(Tag::of_wire_id_1027_1050(1029) == Some(Tag::FilesStates));
            },
            Tag::FileModes => {
                assert(Tag::of_wire_id_1027_1050(1030) == Some(Tag::FileModes));
            },
            Tag::FileUIDs => {
                assert(Tag::of_wire_id_1027_1050(1031) == Some(Tag::FileUIDs));
            },
            Tag::FileGids => {
                assert(Tag::of_wire_id_1027_1050(1032) == Some(Tag::FileGids));
            },
            Tag::FilerDevs => {
                assert(Tag::of_wire_id_1027_1050(1033) == Some(Tag::FilerDevs));
            },
            Tag::FileMTimes => {
                assert(Tag::of_wire_id_1027_1050(1034) == Some(Tag::FileMTimes));
            },
            Tag::FileMD5s => {
                assert(Tag::of_wire_id_1027_1050(1035) == Some(Tag::FileMD5s));
            },
            Tag::FileLinktos => {
                assert(Tag::of_wire_id_1027_1050(1036) == Some(Tag::FileLinktos));
            },
            Tag::FileFlags => {
                assert(Tag::of_wire_id_1027_1050(1037) == Some(Tag::FileFlags));
            },
            Tag::Root => {
                assert(Tag::of_wire_id_1027_1050(1038) == Some(Tag::Root));
            },
            Tag::FileUserName => {
                assert(Tag::of_wire_id_1027_1050(1039) == Some(Tag::FileUserName));
            },
            Tag::FileGroupName => {
                assert(Tag::of_wire_id_1027_1050(1040) == Some(Tag::FileGroupName));
            },
            Tag::Exclude => {
                assert(Tag::of_wire_id_1027_1050(1041) == Some(Tag::Exclude));
            },
            Tag::Exclusive => {
                assert(Tag::of_wire_id_1027_1050(1042) == Some(Tag::Exclusive));
            },
            Tag::Icon => {
                assert(Tag::of_wire_id_1027_1050(1043) == Some(Tag::Icon));
            },
            Tag::SourceRpm => {
                assert(Tag::of_wire_id_1027_1050(1044) == Some(Tag::SourceRpm));
            },
            Tag::FileVerifyFlags => {
                assert(Tag::of_wire_id_1027_1050(1045) == Some(Tag::FileVerifyFlags));
            },
            Tag::ArchiveSize => {
                assert(Tag::of_wire_id_1027_1050(1046) == Some(Tag::ArchiveSize));
            },
            Tag::ProvideName => {
                assert(Tag::of_wire_id_1027_1050(1047) == Some(Tag::ProvideName));
            },
            Tag::RequireFlags => {
                assert(Tag::of_wire_id_1027_1050(1048) == Some(Tag::RequireFlags));
            },
            Tag::RequireName => {
                assert(Tag::of_wire_id_1027_1050(1049) == Some(Tag::RequireName));
            },
            Tag::RequireVersion => {
                assert(Tag::of_wire_id_1027_1050(1050) == Some(Tag::RequireVersion));
            },
            Tag::NoSource => {
                assert(Tag::of_wire_id_1051_1083(1051) == Some(Tag::NoSource));
            },
            Tag::NoPatch => {
                assert(Tag::of_wire_id_1051_1083(1052) == Some(Tag::NoPatch));
            },
            Tag::Conflictflags => {
                assert(Tag::of_wire_id_1051_1083(1053) == Some(Tag::Conflictflags));
            },
            Tag::Conflictname => {
                assert(Tag::of_wire_id_1051_1083(1054) == Some(Tag::Conflictname));
            },
            Tag::Conflictversion => {
                assert(Tag::of_wire_id_1051_1083(1055) == Some(Tag::Conflictversion));
            },
            Tag::DefaultPrefix => {
                assert(Tag::of_wire_id_1051_1083(1056) == Some(Tag::DefaultPrefix));
            },
            Tag::BuildRoot => {
                assert(Tag::of_wire_id_1051_1083(1057) == Some(Tag::BuildRoot));
            },
            Tag::Installprefix => {
                assert(Tag::of_wire_id_1051_1083(1058) == Some(Tag::Installprefix));
            },
            Tag::Excludearch => {
                assert(Tag::of_wire_id_1051_1083(1059) == Some(Tag::Excludearch));
            },
            Tag::Excludeos => {
                assert(Tag::of_wire_id_1051_1083(1060) == Some(Tag::Excludeos));
            },
            Tag::Exclusivearch => {
                assert(Tag::of_wire_id_1051_1083(1061) == Some(Tag::Exclusivearch));
            },
            Tag::Exclusiveos => {
                assert(Tag::of_wire_id_1051_1083(1062) == Some(Tag::Exclusiveos));
            },
            Tag::Autoreqprov => {
                assert(Tag::of_wire_id_1051_1083(1063) == Some(Tag::Autoreqprov));
            },
            Tag::Rpmversion => {
                assert(Tag::of_wire_id_1051_1083(1064) == Some(Tag::Rpmversion));
            },
            Tag::Triggerscripts => {
                assert(Tag::of_wire_id_1051_1083(1065) == Some(Tag::Triggerscripts));
            },
            Tag::Triggername => {
                assert(Tag::of_wire_id_1051_1083(1066) == Some(Tag::Triggername));
            },
            Tag::Triggerversion => {
                assert(Tag::of_wire_id_1051_1083(1067) == Some(Tag::Triggerversion));
            },
            Tag::Triggerflags => {
                assert(Tag::of_wire_id_1051_1083(1068) == Some(Tag::Triggerflags));
            },
            Tag::Triggerindex => {
                assert(Tag::of_wire_id_1051_1083(1069) == Some(Tag::Triggerindex));
            },
            Tag::Verifyscript => {
                assert(Tag::of_wire_id_1051_1083(1079) == Some(Tag::Verifyscript));
            },
            Tag::Changelogtime => {
                assert(Tag::of_wire_id_1051_1083(1080) == Some(Tag::Changelogtime));
            },
            Tag::ChangelogName => {
                assert(Tag::of_wire_id_1051_1083(1081) == Some(Tag::ChangelogName));
            },
            Tag::Changelogtext => {
                assert(Tag::of_wire_id_1051_1083(1082) == Some(Tag::Changelogtext));
            },
            Tag::Brokenmd5 => {
                assert(Tag::of_wire_id_1051_1083(1083) == Some(Tag::Brokenmd5));
            },
            Tag::Prereq => {
                assert(Tag::of_wire_id_1084_1107(1084) == Some(Tag::Prereq));
            },
            Tag::Preinprog => {
                assert(Tag::of_wire_id_1084_1107(1085) == Some(Tag::Preinprog));
            },
            Tag::Postinprog => {
                assert(Tag::of_wire_id_1084_1107(1086) == Some(Tag::Postinprog));
            },
            Tag::Preunprog => {
                assert(Tag::of_wire_id_1084_1107(1087) == Some(Tag::Preunprog));
            },
            Tag::Postunprog => {
                assert(Tag::of_wire_id_1084_1107(1088) == Some(Tag::Postunprog));
            },
            Tag::BuildArchs => {
                assert(Tag::of_wire_id_1084_1107(1089) == Some(Tag::BuildArchs));
            },
            Tag::Obsoletename => {
                assert(Tag::of_wire_id_1084_1107(1090) == Some(Tag::Obsoletename));
            },
            Tag::Verifyscriptprog => {
                assert(Tag::of_wire_id_1084_1107(1091) == Some(Tag::Verifyscriptprog));
            },
            Tag::Triggerscriptprog => {
                assert(Tag::of_wire_id_1084_1107(1092) == Some(Tag::Triggerscriptprog));
            },
            Tag::DocDir => {
                assert(Tag::of_wire_id_1084_1107(1093) == Some(Tag::DocDir));
            },
            Tag::Cookie => {
                assert(Tag::of_wire_id_1084_1107(1094) == Some(Tag::Cookie));
            },
            Tag::FileDevices => {
                assert(Tag::of_wire_id_1084_1107(1095) == Some(Tag::FileDevices));
            },
            Tag::FileInodes => {
                assert(Tag::of_wire_id_1084_1107(1096) == Some(Tag::FileInodes));
            },
            Tag::FileLangs => {
                assert(Tag::of_wire_id_1084_1107(1097) == Some(Tag::FileLangs));
            },
            Tag::Prefixes => {
                assert(Tag::of_wire_id_1084_1107(1098) == Some(Tag::Prefixes));
            },
            Tag::InstPrefixes => {
                assert(Tag::of_wire_id_1084_1107(1099) == Some(Tag::InstPrefixes));
            },
            Tag::Triggerin => {
                assert(Tag::of_wire_id_1084_1107(1100) == Some(Tag::Triggerin));
            },
            Tag::Triggerun => {
                assert(Tag::of_wire_id_1084_1107(1101) == Some(Tag::Triggerun));
            },
            Tag::Triggerpostun => {
                assert(Tag::of_wire_id_1084_1107(1102) == Some(Tag::Triggerpostun));
            },
            Tag::Autoreq => {
                assert(Tag::of_wire_id_1084_1107(1103) == Some(Tag::Autoreq));
            },
            Tag::Autoprov => {
                assert(Tag::of_wire_id_1084_1107(1104) == Some(Tag::Autoprov));
            },
            Tag::Capability => {
                assert(Tag::of_wire_id_1084_1107(1105) == Some(Tag::Capability));
            },
            Tag::Sourcepackage => {
                assert(Tag::of_wire_id_1084_1107(1106) == Some(Tag::Sourcepackage));
            },
            Tag::Oldorigfilenames => {
                assert(Tag::of_wire_id_1084_1107(1107) == Some(Tag::Oldorigfilenames));
            },
            Tag::Buildprereq => {
                assert(Tag::of_wire_id_1108_1131(1108) == Some(Tag::Buildprereq));
            },
            Tag::Buildrequires => {
                assert(Tag::of_wire_id_1108_1131(1109) == Some(Tag::Buildrequires));
            },
            Tag::Buildconflicts => {
                assert(Tag::of_wire_id_1108_1131(1110) == Some(Tag::Buildconflicts));
            },
            Tag::Buildmacros => {
                assert(Tag::of_wire_id_1108_1131(1111) == Some(Tag::Buildmacros));
            },
            Tag::Provideflags => {
                assert(Tag::of_wire_id_1108_1131(1112) == Some(Tag::Provideflags));
            },
            Tag::Provideversion => {
                assert(Tag::of_wire_id_1108_1131(1113) == Some(Tag::Provideversion));
            },
            Tag::Obsoleteflags => {
                assert(Tag::of_wire_id_1108_1131(1114) == Some(Tag::Obsoleteflags));
            },
            Tag::Obsoleteversion => {
                assert(Tag::of_wire_id_1108_1131(1115) == Some(Tag::Obsoleteversion));
            },
            Tag::DirIndexes => {
                assert(Tag::of_wire_id_1108_1131(1116) == Some(Tag::DirIndexes));
            },
            Tag::BaseNames => {
                assert(Tag::of_wire_id_1108_1131(1117) == Some(Tag::BaseNames));
            },
            Tag::DirNames => {
                assert(Tag::of_wire_id_1108_1131(1118) == Some(Tag::DirNames));
            },
            Tag::Origdirindexes => {
                assert(Tag::of_wire_id_1108_1131(1119) == Some(Tag::Origdirindexes));
            },
            Tag::Origbasenames => {
                assert(Tag::of_wire_id_1108_1131(1120) == Some(Tag::Origbasenames));
            },
            Tag::Origdirnames => {
                assert(Tag::of_wire_id_1108_1131(1121) == Some(Tag::Origdirnames));
            },
            Tag::Optflags => {
                assert(Tag::of_wire_id_1108_1131(1122) == Some(Tag::Optflags));
            },
            Tag::Disturl => {
                assert(Tag::of_wire_id_1108_1131(1123) == Some(Tag::Disturl));
            },
            Tag::PayloadFormat => {
                assert(Tag::of_wire_id_1108_1131(1124) == Some(Tag::PayloadFormat));
            },
            Tag::PayloadCompressor => {
                assert(Tag::of_wire_id_1108_1131(1125) == Some(Tag::PayloadCompressor));
            },
            Tag::PayloadFlags => {
                assert(Tag::of_wire_id_1108_1131(1126) == Some(Tag::PayloadFlags));
            },
            Tag::InstallColor => {
                assert(Tag::of_wire_id_1108_1131(1127) == Some(Tag::InstallColor));
            },
            Tag::InstallTid => {
                assert(Tag::of_wire_id_1108_1131(1128) == Some(Tag::InstallTid));
            },
            Tag::Removetid => {
                assert(Tag::of_wire_id_1108_1131(1129) == Some(Tag::Removetid));
            },
            Tag::Sha1rhn => {
                assert(Tag::of_wire_id_1108_1131(1130) == Some(Tag::Sha1rhn));
            },
            Tag::RHNPlatform => {
                assert(Tag::of_wire_id_1108_1131(1131) == Some(Tag::RHNPlatform));
            },
            Tag::Platform => {
                assert(Tag::of_wire_id_1132_1171(1132) == Some(Tag::Platform));
            },
            Tag::PatchesName => {
                assert(Tag::of_wire_id_1132_1171(1133) == Some(Tag::PatchesName));
            },
            Tag::Catchesflags => {
                assert(Tag::of_wire_id_1132_1171(1134) == Some(Tag::Catchesflags));
            },
            Tag::Catchesversion => {
                assert(Tag::of_wire_id_1132_1171(1135) == Some(Tag::Catchesversion));
            },
            Tag::Cachectime => {
                assert(Tag::of_wire_id_1132_1171(1136) == Some(Tag::Cachectime));
            },
            Tag::Cachepkgpath => {
                assert(Tag::of_wire_id_1132_1171(1137) == Some(Tag::Cachepkgpath));
            },
            Tag::Cachepkgsize => {
                assert(Tag::of_wire_id_1132_1171(1138) == Some(Tag::Cachepkgsize));
            },
            Tag::Cachepkgmtime => {
                assert(Tag::of_wire_id_1132_1171(1139) == Some(Tag::Cachepkgmtime));
            },
            Tag::Filecolors => {
                assert(Tag::of_wire_id_1132_1171(1140) == Some(Tag::Filecolors));
            },
            Tag::Fileclass => {
                assert(Tag::of_wire_id_1132_1171(1141) == Some(Tag::Fileclass));
            },
            Tag::Classdict => {
                assert(Tag::of_wire_id_1132_1171(1142) == Some(Tag::Classdict));
            },
            Tag::Diledependsx => {
                assert(Tag::of_wire_id_1132_1171(1143) == Some(Tag::Diledependsx));
            },
            Tag::Filedependsn => {
                assert(Tag::of_wire_id_1132_1171(1144) == Some(Tag::Filedependsn));
            },
            Tag::Dependsdict => {
                assert(Tag::of_wire_id_1132_1171(1145) == Some(Tag::Dependsdict));
            },
            Tag::Sourcepkgid => {
                assert(Tag::of_wire_id_1132_1171(1146) == Some(Tag::Sourcepkgid));
            },
            Tag::FileContexts => {
                assert(Tag::of_wire_id_1132_1171(1147) == Some(Tag::FileContexts));
            },
            Tag::FsContects => {
                assert(Tag::of_wire_id_1132_1171(1148) == Some(Tag::FsContects));
            },
            Tag::ReContexts => {
                assert(Tag::of_wire_id_1132_1171(1149) == Some(Tag::ReContexts));
            },
            Tag::Policies => {
                assert(Tag::of_wire_id_1132_1171(1150) == Some(Tag::Policies));
            },
            Tag::Posttrans => {
                assert(Tag::of_wire_id_1132_1171(1152) == Some(Tag::Posttrans));
            },
            Tag::Pretransprog => {
                assert(Tag::of_wire_id_1132_1171(1153) == Some(Tag::Pretransprog));
            },
            Tag::Posttransprog => {
                assert(Tag::of_wire_id_1132_1171(1154) == Some(Tag::Posttransprog));
            },
            Tag::Disttag => {
                assert(Tag::of_wire_id_1132_1171(1155) == Some(Tag::Disttag));
            },
            Tag::Triggerprein => {
                assert(Tag::of_wire_id_1132_1171(1171) == Some(Tag::Triggerprein));
            },
            Tag::Dbinstance => {
                assert(Tag::of_wire_id_1195_5022(1195) == Some(Tag::Dbinstance));
            },
            Tag::Filenames => {
                assert(Tag::of_wire_id_1195_5022(5000) == Some(Tag::Filenames));
            },
            Tag::Fileprovide => {
                assert(Tag::of_wire_id_1195_5022(5001) == Some(Tag::Fileprovide));
            },
            Tag::Filerequire => {
                assert(Tag::of_wire_id_1195_5022(5002) == Some(Tag::Filerequire));
            },
            Tag::Fsnames => {
                assert(Tag::of_wire_id_1195_5022(5003) == Some(Tag::Fsnames));
            },
            Tag::Fssizes => {
                assert(Tag::of_wire_id_1195_5022(5004) == Some(Tag::Fssizes));
            },
            Tag::Triggerconds => {
                assert(Tag::of_wire_id_1195_5022(5005) == Some(Tag::Triggerconds));
            },
            Tag::Triggertype => {
                assert(Tag::of_wire_id_1195_5022(5006) == Some(Tag::Triggertype));
            },
            Tag::Origfilenames => {
                assert(Tag::of_wire_id_1195_5022(5007) == Some(Tag::Origfilenames));
            },
            Tag::Longfilesizes => {
                assert(Tag::of_wire_id_1195_5022(5008) == Some(Tag::Longfilesizes));
            },
            Tag::Longsize => {
                assert(Tag::of_wire_id_1195_5022(5009) == Some(Tag::Longsize));
            },
            Tag::Filecaps => {
                assert(Tag::of_wire_id_1195_5022(5010) == Some(Tag::Filecaps));
            },
            Tag::Filedigestalgo => {
                assert(Tag::of_wire_id_1195_5022(5011) == Some(Tag::Filedigestalgo));
            },
            Tag::Bugurl => {
                assert(Tag::of_wire_id_1195_5022(5012) == Some(Tag::Bugurl));
            },
            Tag::Evr => {
                assert(Tag::of_wire_id_1195_5022(5013) == Some(Tag::Evr));
            },
            Tag::Nvr => {
                assert(Tag::of_wire_id_1195_5022(5014) == Some(Tag::Nvr));
            },
            Tag::Nevr => {
                assert(Tag::of_wire_id_1195_5022(5015) == Some(Tag::Nevr));
            },
            Tag::Nevra => {
                assert(Tag::of_wire_id_1195_5022(5016) == Some(Tag::Nevra));
            },
            Tag::Headercolor => {
                assert(Tag::of_wire_id_1195_5022(5017) == Some(Tag::Headercolor));
            },
            Tag::Verbose => {
                assert(Tag::of_wire_id_1195_5022(5018) == Some(Tag::Verbose));
            },
            Tag::Epochnum => {
                assert(Tag::of_wire_id_1195_5022(5019) == Some(Tag::Epochnum));
            },
            Tag::Preinflags => {
                assert(Tag::of_wire_id_1195_5022(5020) == Some(Tag::Preinflags));
            },
            Tag::Postinflags => {
                assert(Tag::of_wire_id_1195_5022(5021) == Some(Tag::Postinflags));
            },
            Tag::Preunflags => {
                assert(Tag::of_wire_id_1195_5022(5022) == Some(Tag::Preunflags));
            },
            Tag::Postunflags => {
                assert(Tag::of_wire_id_5023_5047(5023) == Some(Tag::Postunflags));
            },
            Tag::Pretransflags => {
                assert(Tag::of_wire_id_5023_5047(5024) == Some(Tag::Pretransflags));
            },
            Tag::Posttransflags => {
                assert(Tag::of_wire_id_5023_5047(5025) == Some(Tag::Posttransflags));
            },
            Tag::Verifyscriptflags => {
                assert(Tag::of_wire_id_5023_5047(5026) == Some(Tag::Verifyscriptflags));
            },
            Tag::Triggerscriptflags => {
                assert(Tag::of_wire_id_5023_5047(5027) == Some(Tag::Triggerscriptflags));
            },
            Tag::Collections => {
                assert(Tag::of_wire_id_5023_5047(5029) == Some(Tag::Collections));
            },
            Tag::Policynames => {
                assert(Tag::of_wire_id_5023_5047(5030) == Some(Tag::Policynames));
            },
            Tag::Policytypes => {
                assert(Tag::of_wire_id_5023_5047(5031) == Some(Tag::Policytypes));
            },
            Tag::Policytypesindexes => {
                assert(Tag::of_wire_id_5023_5047(5032) == Some(Tag::Policytypesindexes));
            },
            Tag::Policyflags => {
                assert(Tag::of_wire_id_5023_5047(5033) == Some(Tag::Policyflags));
            },
            Tag::Vcs => {
                assert(Tag::of_wire_id_5023_5047(5034) == Some(Tag::Vcs));
            },
            Tag::Ordername => {
                assert(Tag::of_wire_id_5023_5047(5035) == Some(Tag::Ordername));
            },
            Tag::Orderversion => {
                assert(Tag::of_wire_id_5023_5047(5036) == Some(Tag::Orderversion));
            },
            Tag::Orderflags => {
                assert(Tag::of_wire_id_5023_5047(5037) == Some(Tag::Orderflags));
            },
            Tag::Mssfmanifest => {
                assert(Tag::of_wire_id_5023_5047(5038) == Some(Tag::Mssfmanifest));
            },
            Tag::Mssfdomain => {
                assert(Tag::of_wire_id_5023_5047(5039) == Some(Tag::Mssfdomain));
            },
            Tag::Instfilenames => {
                assert(Tag::of_wire_id_5023_5047(5040) == Some(Tag::Instfilenames));
            },
            Tag::Requirenevrs => {
                assert(Tag::of_wire_id_5023_5047(5041) == Some(Tag::Requirenevrs));
            },
            Tag::Providenevrs => {
                assert(Tag::of_wire_id_5023_5047(5042) == Some(Tag::Providenevrs));
            },
            Tag::Obsoletenevrs => {
                assert(Tag::of_wire_id_5023_5047(5043) == Some(Tag::Obsoletenevrs));
            },
            Tag::Conflictnevrs => {
                assert(Tag::of_wire_id_5023_5047(5044) == Some(Tag::Conflictnevrs));
            },
            Tag::Filenlinks => {
                assert(Tag::of_wire_id_5023_5047(5045) == Some(Tag::Filenlinks));
            },
            Tag::Recommendname => {
                assert(Tag::of_wire_id_5023_5047(5046) == Some(Tag::Recommendname));
            },
            Tag::Recommendversion => {
                assert(Tag::of_wire_id_5023_5047(5047) == Some(Tag::Recommendversion));
            },
            Tag::Recommendflags => {
                assert(Tag::of_wire_id_5048_5071(5048) == Some(Tag::Recommendflags));
            },
            Tag::Suggestname => {
                assert(Tag::of_wire_id_5048_5071(5049) == Some(Tag::Suggestname));
            },
            Tag::Suggestversion => {
                assert(Tag::of_wire_id_5048_5071(5050) == Some(Tag::Suggestversion));
            },
            Tag::Suggestflags => {
                assert(Tag::of_wire_id_5048_5071(5051) == Some(Tag::Suggestflags));
            },
            Tag::Supplementname => {
                assert(Tag::of_wire_id_5048_5071(5052) == Some(Tag::Supplementname));
            },
            Tag::Supplementversion => {
                assert(Tag::of_wire_id_5048_5071(5053) == Some(Tag::Supplementversion));
            },
            Tag::Supplementflags => {
                assert(Tag::of_wire_id_5048_5071(5054) == Some(Tag::Supplementflags));
            },
            Tag::Enhancename => {
                assert(Tag::of_wire_id_5048_5071(5055) == Some(Tag::Enhancename));
            },
            Tag::Enhanceversion => {
                assert(Tag::of_wire_id_5048_5071(5056) == Some(Tag::Enhanceversion));
            },
            Tag::Enhanceflags => {
                assert(Tag::of_wire_id_5048_5071(5057) == Some(Tag::Enhanceflags));
            },
            Tag::Recommendnevrs => {
                assert(Tag::of_wire_id_5048_5071(5058) == Some(Tag::Recommendnevrs));
            },
            Tag::Suggestnevrs => {
                assert(Tag::of_wire_id_5048_5071(5059) == Some(Tag::Suggestnevrs));
            },
            Tag::Supplementnevrs => {
                assert(Tag::of_wire_id_5048_5071(5060) == Some(Tag::Supplementnevrs));
            },
            Tag::Enhancenevrs => {
                assert(Tag::of_wire_id_5048_5071(5061) == Some(Tag::Enhancenevrs));
            },
            Tag::Encoding => {
                assert(Tag::of_wire_id_5048_5071(5062) == Some(Tag::Encoding));
            },
            Tag::Filetriggerin => {
                assert(Tag::of_wire_id_5048_5071(5063) == Some(Tag::Filetriggerin));
            },
            Tag::Filetriggerun => {
                assert(Tag::of_wire_id_5048_5071(5064) == Some(Tag::Filetriggerun));
            },
            Tag::Filetriggerpostun => {
                assert(Tag::of_wire_id_5048_5071(5065) == Some(Tag::Filetriggerpostun));
            },
            Tag::Filetriggerscripts => {
                assert(Tag::of_wire_id_5048_5071(5066) == Some(Tag::Filetriggerscripts));
            },
            Tag::Filetriggerscriptprog => {
                assert(Tag::of_wire_id_5048_5071(5067) == Some(Tag::Filetriggerscriptprog));
            },
            Tag::Filetriggerscriptflags => {
                assert(Tag::of_wire_id_5048_5071(5068) == Some(Tag::Filetriggerscriptflags));
            },
            Tag::Filetriggername => {
                assert(Tag::of_wire_id_5048_5071(5069) == Some(Tag::Filetriggername));
            },
            Tag::Filetriggerindex => {
                assert(Tag::of_wire_id_5048_5071(5070) == Some(Tag::Filetriggerindex));
            },
            Tag::Filetriggerversion => {
                assert(Tag::of_wire_id_5048_5071(5071) == Some(Tag::Filetriggerversion));
            },
            Tag::Filetriggerflags => {
                assert(Tag::of_wire_id_5072_5095(5072) == Some(Tag::Filetriggerflags));
            },
            Tag::Transfiletriggerin => {
                assert(Tag::of_wire_id_5072_5095(5073) == Some(Tag::Transfiletriggerin));
            },
            Tag::Transfiletriggerun => {
                assert(Tag::of_wire_id_5072_5095(5074) == Some(Tag::Transfiletriggerun));
            },
            Tag::Transfiletriggerpostun => {
                assert(Tag::of_wire_id_5072_5095(5075) == Some(Tag::Transfiletriggerpostun));
            },
            Tag::Transfiletriggerscripts => {
                assert(Tag::of_wire_id_5072_5095(5076) == Some(Tag::Transfiletriggerscripts));
            },
            Tag::Transfiletriggerscriptprog => {
                assert(Tag::of_wire_id_5072_5095(5077) == Some(Tag::Transfiletriggerscriptprog));
            },
            Tag::Transfiletriggerscriptflags => {
                assert(Tag::of_wire_id_5072_5095(5078) == Some(Tag::Transfiletriggerscriptflags));
            },
            Tag::Transfiletriggername => {
                assert(Tag::of_wire_id_5072_5095(5079) == Some(Tag::Transfiletriggername));
            },
            Tag::Transfiletriggerindex => {
                assert(Tag::of_wire_id_5072_5095(5080) == Some(Tag::Transfiletriggerindex));
            },
            Tag::Transfiletriggerversion => {
                assert(Tag::of_wire_id_5072_5095(5081) == Some(Tag::Transfiletriggerversion));
            },
            Tag::Transfiletriggerflags => {
                assert(Tag::of_wire_id_5072_5095(5082) == Some(Tag::Transfiletriggerflags));
            },
            Tag::Removepathpostfixes => {
                assert(Tag::of_wire_id_5072_5095(5083) == Some(Tag::Removepathpostfixes));
            },
            Tag::Filetriggerpriorities => {
                assert(Tag::of_wire_id_5072_5095(5084) == Some(Tag::Filetriggerpriorities));
            },
            Tag::Transfiletriggerpriorities => {
                assert(Tag::of_wire_id_5072_5095(5085) == Some(Tag::Transfiletriggerpriorities));
            },
            Tag::Filetriggerconds => {
                assert(Tag::of_wire_id_5072_5095(5086) == Some(Tag::Filetriggerconds));
            },
            Tag::Filetriggertype => {
                assert(Tag::of_wire_id_5072_5095(5087) == Some(Tag::Filetriggertype));
            },
            Tag::Transfiletriggerconds => {
                assert(Tag::of_wire_id_5072_5095(5088) == Some(Tag::Transfiletriggerconds));
            },
            Tag::Transfiletriggertype => {
                assert(Tag::of_wire_id_5072_5095(5089) == Some(Tag::Transfiletriggertype));
            },
            Tag::Filesignatures => {
                assert(Tag::of_wire_id_5072_5095(5090) == Some(Tag::Filesignatures));
            },
            Tag::Filesignaturelength => {
                assert(Tag::of_wire_id_5072_5095(5091) == Some(Tag::Filesignaturelength));
            },
            Tag::Payloaddigest => {
                assert(Tag::of_wire_id_5072_5095(5092) == Some(Tag::Payloaddigest));
            },
            Tag::Payloaddigestalgo => {
                assert(Tag::of_wire_id_5072_5095(5093) == Some(Tag::Payloaddigestalgo));
            },
            Tag::Autoinstalled => {
                assert(Tag::of_wire_id_5072_5095(5094) == Some(Tag::Autoinstalled));
            },
            Tag::Identity => {
                assert(Tag::of_wire_id_5072_5095(5095) == Some(Tag::Identity));
            },
            Tag::Modularitylabel => {
                assert(Tag::of_wire_id_5096_5096(5096) == Some(Tag::Modularitylabel));
            },
            Tag::Other => {},
        }
    }

    fn to_u32(&self) -> (id: Option<u32>) {
        match self {
            Tag::Image => Some(61),
            Tag::Signatures => Some(62),
            Tag::Immutable => Some(63),
            Tag::Regions => Some(64),
            Tag::I18nTable => Some(100),
            Tag::Sigbase => Some(256),
            Tag::Sigsize => Some(257),
            Tag::Siglemd5_1 => Some(258),
            Tag::Sigpgp => Some(259),
            Tag::Siglemd5_2 => Some(260),
            Tag::Sigmd5 => Some(261),
            Tag::Siggpg => Some(262),
            Tag::Sigpgp5 => Some(263),
            Tag::Badsha1_1 => Some(264),
            Tag::Badsha1_2 => Some(265),
            Tag::Pubkeys => Some(266),
            Tag::Dsaheader => Some(267),
            Tag::Rsaheader => Some(268),
            Tag::Sha1header => Some(269),
            Tag::Longsigsize => Some(270),
            Tag::Longarchivesize => Some(271),
            Tag::Name => Some(1000),
            Tag::Version => Some(1001),
            Tag::Release => Some(1002),
            Tag::Epoch => Some(1003),
            Tag::Summary => Some(1004),
            Tag::Description => Some(1005),
            Tag::BuildTime => Some(1006),
            Tag::BuildHost => Some(1007),
            Tag::InstallTime => Some(1008),
            Tag::Size => Some(1009),
            Tag::Distribution => Some(1010),
            Tag::Vendor => Some(1011),
            Tag::Gif => Some(1012),
            Tag::Xpm => Some(1013),
            Tag::License => Some(1014),
            Tag::Packager => Some(1015),
            Tag::Group => Some(1016),
            Tag::Changelog => Some(1017),
            Tag::Source => Some(1018),
            Tag::Patch => Some(1019),
            Tag::Url => Some(1020),
            Tag::Os => Some(1021),
            Tag::Arch => Some(1022),
            Tag::PreIn => Some(1023),
            Tag::PostIn => Some(1024),
            Tag::PreUn => Some(1025),
            Tag::PostUn => Some(1026),
            Tag::OldFileNames => Some(1027),
            Tag::FileSizes => Some(1028),
            Tag::FilesStates => Some(1029),
            Tag::FileModes => Some(1030),
            Tag::FileUIDs => Some(1031),
            Tag::FileGids => Some(1032),
            Tag::FilerDevs => Some(1033),
            Tag::FileMTimes => Some(1034),
            Tag::FileMD5s => Some(1035),
            Tag::FileLinktos => Some(1036),
            Tag::FileFlags => Some(1037),
            Tag::Root => Some(1038),
            Tag::FileUserName => Some(1039),
            Tag::FileGroupName => Some(1040),
            Tag::Exclude => Some(1041),
            Tag::Exclusive => Some(1042),
            Tag::Icon => Some(1043),
            Tag::SourceRpm => Some(1044),
            Tag::FileVerifyFlags => Some(1045),
            Tag::ArchiveSize => Some(1046),
            Tag::ProvideName => Some(1047),
            Tag::RequireFlags => Some(1048),
            Tag::RequireName => Some(1049),
            Tag::RequireVersion => Some(1050),
            Tag::NoSource => Some(1051),
            Tag::NoPatch => Some(1052),
            Tag::Conflictflags => Some(1053),
            Tag::Conflictname => Some(1054),
            Tag::Conflictversion => Some(1055),
            Tag::DefaultPrefix => Some(1056),
            Tag::BuildRoot => Some(1057),
            Tag::Installprefix => Some(1058),
            Tag::Excludearch => Some(1059),
            Tag::Excludeos => Some(1060),
            Tag::Exclusivearch => Some(1061),
            Tag::Exclusiveos => Some(1062),
            Tag::Autoreqprov => Some(1063),
            Tag::Rpmversion => Some(1064),
            Tag::Triggerscripts => Some(1065),
            Tag::Triggername => Some(1066),
            Tag::Triggerversion => Some(1067),
            Tag::Triggerflags => Some(1068),
            Tag::Triggerindex => Some(1069),
            Tag::Verifyscript => Some(1079),
            Tag::Changelogtime => Some(1080),
            Tag::ChangelogName => Some(1081),
            Tag::Changelogtext => Some(1082),
            Tag::Brokenmd5 => Some(1083),
            Tag::Prereq => Some(1084),
            Tag::Preinprog => Some(1085),
            Tag::Postinprog => Some(1086),
            Tag::Preunprog => Some(1087),
            Tag::Postunprog => Some(1088),
            Tag::BuildArchs => Some(1089),
            Tag::Obsoletename => Some(1090),
            Tag::Verifyscriptprog => Some(1091),
            Tag::Triggerscriptprog => Some(1092),
            Tag::DocDir => Some(1093),
            Tag::Cookie => Some(1094),
            Tag::FileDevices => Some(1095),
            Tag::FileInodes => Some(1096),
            Tag::FileLangs => Some(1097),
            Tag::Prefixes => Some(1098),
            Tag::InstPrefixes => Some(1099),
            Tag::Triggerin => Some(1100),
            Tag::Triggerun => Some(1101),
            Tag::Triggerpostun => Some(1102),
            Tag::Autoreq => Some(1103),
            Tag::Autoprov => Some(1104),
            Tag::Capability => Some(1105),
            Tag::Sourcepackage => Some(1106),
            Tag::Oldorigfilenames => Some(1107),
            Tag::Buildprereq => Some(1108),
            Tag::Buildrequires => Some(1109),
            Tag::Buildconflicts => Some(1110),
            Tag::Buildmacros => Some(1111),
            Tag::Provideflags => Some(1112),
            Tag::Provideversion => Some(1113),
            Tag::Obsoleteflags => Some(1114),
            Tag::Obsoleteversion => Some(1115),
            Tag::DirIndexes => Some(1116),
            Tag::BaseNames => Some(1117),
            Tag::DirNames => Some(1118),
            Tag::Origdirindexes => Some(1119),
            Tag::Origbasenames => Some(1120),
            Tag::Origdirnames => Some(1121),
            Tag::Optflags => Some(1122),
            Tag::Disturl => Some(1123),
            Tag::PayloadFormat => Some(1124),
            Tag::PayloadCompressor => Some(1125),
            Tag::PayloadFlags => Some(1126),
            Tag::InstallColor => Some(1127),
            Tag::InstallTid => Some(1128),
            Tag::Removetid => Some(1129),
            Tag::Sha1rhn => Some(1130),
            Tag::RHNPlatform => Some(1131),
            Tag::Platform => Some(1132),
            Tag::PatchesName => Some(1133),
            Tag::Catchesflags => Some(1134),
            Tag::Catchesversion => Some(1135),
            Tag::Cachectime => Some(1136),
            Tag::Cachepkgpath => Some(1137),
            Tag::Cachepkgsize => Some(1138),
            Tag::Cachepkgmtime => Some(1139),
            Tag::Filecolors => Some(1140),
            Tag::Fileclass => Some(1141),
            Tag::Classdict => Some(1142),
            Tag::Diledependsx => Some(1143),
            Tag::Filedependsn => Some(1144),
            Tag::Dependsdict => Some(1145),
            Tag::Sourcepkgid => Some(1146),
            Tag::FileContexts => Some(1147),
            Tag::FsContects => Some(1148),
            Tag::ReContexts => Some(1149),
            Tag::Policies => Some(1150),
            Tag::Posttrans => Some(1152),
            Tag::Pretransprog => Some(1153),
            Tag::Posttransprog => Some(1154),
            Tag::Disttag => Some(1155),
            Tag::Triggerprein => Some(1171),
            Tag::Dbinstance => Some(1195),
            Tag::Filenames => Some(5000),
            Tag::Fileprovide => Some(5001),
            Tag::Filerequire => Some(5002),
            Tag::Fsnames => Some(5003),
            Tag::Fssizes => Some(5004),
            Tag::Triggerconds => Some(5005),
            Tag::Triggertype => Some(5006),
            Tag::Origfilenames => Some(5007),
            Tag::Longfilesizes => Some(5008),
            Tag::Longsize => Some(5009),
            Tag::Filecaps => Some(5010),
            Tag::Filedigestalgo => Some(5011),
            Tag::Bugurl => Some(5012),
            Tag::Evr => Some(5013),
            Tag::Nvr => Some(5014),
            Tag::Nevr => Some(5015),
            Tag::Nevra => Some(5016),
            Tag::Headercolor => Some(5017),
            Tag::Verbose => Some(5018),
            Tag::Epochnum => Some(5019),
            Tag::Preinflags => Some(5020),
            Tag::Postinflags => Some(5021),
            Tag::Preunflags => Some(5022),
            Tag::Postunflags => Some(5023),
            Tag::Pretransflags => Some(5024),
            Tag::Posttransflags => Some(5025),
            Tag::Verifyscriptflags => Some(5026),
            Tag::Triggerscriptflags => Some(5027),
            Tag::Collections => Some(5029),
            Tag::Policynames => Some(5030),
            Tag::Policytypes => Some(5031),
            Tag::Policytypesindexes => Some(5032),
            Tag::Policyflags => Some(5033),
            Tag::Vcs => Some(5034),
            Tag::Ordername => Some(5035),
            Tag::Orderversion => Some(5036),
            Tag::Orderflags => Some(5037),
            Tag::Mssfmanifest => Some(5038),
            Tag::Mssfdomain => Some(5039),
            Tag::Instfilenames => Some(5040),
            Tag::Requirenevrs => Some(5041),
            Tag::Providenevrs => Some(5042),
            Tag::Obsoletenevrs => Some(5043),
            Tag::Conflictnevrs => Some(5044),
            Tag::Filenlinks => Some(5045),
            Tag::Recommendname => Some(5046),
            Tag::Recommendversion => Some(5047),
            Tag::Recommendflags => Some(5048),
            Tag::Suggestname => Some(5049),
            Tag::Suggestversion => Some(5050),
            Tag::Suggestflags => Some(5051),
            Tag::Supplementname => Some(5052),
            Tag::Supplementversion => Some(5053),
            Tag::Supplementflags => Some(5054),
            Tag::Enhancename => Some(5055),
            Tag::Enhanceversion => Some(5056),
            Tag::Enhanceflags => Some(5057),
            Tag::Recommendnevrs => Some(5058),
            Tag::Suggestnevrs => Some(5059),
            Tag::Supplementnevrs => Some(5060),
            Tag::Enhancenevrs => Some(5061),
            Tag::Encoding => Some(5062),
            Tag::Filetriggerin => Some(5063),
            Tag::Filetriggerun => Some(5064),
            Tag::Filetriggerpostun => Some(5065),
            Tag::Filetriggerscripts => Some(5066),
            Tag::Filetriggerscriptprog => Some(5067),
            Tag::Filetriggerscriptflags => Some(5068),
            Tag::Filetriggername => Some(5069),
            Tag::Filetriggerindex => Some(5070),
            Tag::Filetriggerversion => Some(5071),
            Tag::Filetriggerflags => Some(5072),
            Tag::Transfiletriggerin => Some(5073),
            Tag::Transfiletriggerun => Some(5074),
            Tag::Transfiletriggerpostun => Some(5075),
            Tag::Transfiletriggerscripts => Some(5076),
            Tag::Transfiletriggerscriptprog => Some(5077),
            Tag::Transfiletriggerscriptflags => Some(5078),
            Tag::Transfiletriggername => Some(5079),
            Tag::Transfiletriggerindex => Some(5080),
            Tag::Transfiletriggerversion => Some(5081),
            Tag::Transfiletriggerflags => Some(5082),
            Tag::Removepathpostfixes => Some(5083),
            Tag::Filetriggerpriorities => Some(5084),
            Tag::Transfiletriggerpriorities => Some(5085),
            Tag::Filetriggerconds => Some(5086),
            Tag::Filetriggertype => Some(5087),
            Tag::Transfiletriggerconds => Some(5088),
            Tag::Transfiletriggertype => Some(5089),
            Tag::Filesignatures => Some(5090),
            Tag::Filesignaturelength => Some(5091),
            Tag::Payloaddigest => Some(5092),
            Tag::Payloaddigestalgo => Some(5093),
            Tag::Autoinstalled => Some(5094),
            Tag::Identity => Some(5095),
            Tag::Modularitylabel => Some(5096),
            Tag::Other => None,
        }
    }

    fn from_u32(id: u32) -> (tag: Option<Self>) {
        if id <= 1002 {
            Self::from_u32_61_1002(id)
        } else if id <= 1026 {
            Self::from_u32_1003_1026(id)
        } else if id <= 1050 {
            Self::from_u32_1027_1050(id)
        } else if id <= 1083 {
            Self::from_u32_1051_1083(id)
        } else if id <= 1107 {
            Self::from_u32_1084_1107(id)
        } else if id <= 1131 {
            Self::from_u32_1108_1131(id)
        } else if id <= 1171 {
            Self::from_u32_1132_1171(id)
        } else if id <= 5022 {
            Self::from_u32_1195_5022(id)
        } else if id <= 5047 {
            Self::from_u32_5023_5047(id)
        } else if id <= 5071 {
            Self::from_u32_5048_5071(id)
        } else if id <= 5095 {
            Self::from_u32_5072_5095(id)
        } else {
            Self::from_u32_5096_5096(id)
        }
    }

    fn other() -> (tag: Self) {
        Tag::Other
    }

    fn same(&self, other: &Self) -> (b: bool) {
        *self == *other
    }
}

impl Default for Tag {
    fn default() -> (tag: Tag)
        ensures
            tag == Tag::Other,
    {
        Tag::Other
    }
}

/// The tags of the signature header.
#[derive(Debug, Copy, Clone, PartialEq, Eq, Hash, Structural)]
pub enum SignatureTag {
    HeaderImage,
    HeaderSignatures,
    HeaderImmutable,
    HeaderRegions,
    Headeri18Ntable,
    SigSize,
    SigLEMD5_1,
    SigPGP,
    SigLEMD5_2,
    SigMD5,
    SigGPG,
    SigGPG5,
    BadSHA1_1,
    BadSHA1_2,
    PubKeys,
    DSAHeader,
    RSAHeader,
    SHA1Header,
    LongSigSize,
    LongArchiveSize,
    SHA256Header,
    Size,
    LEMD5_1,
    PGP,
    LEMD5_2,
    MD5,
    GPG,
    PGP5,
    PayloadSize,
    ReservedSpace,
    Other,
}

impl SignatureTag {
    /// The number that stands for this tag on the wire; the sentinel has none.
    pub open spec fn wire_id(self) -> Option<u32> {
        match self {
            SignatureTag::HeaderImage => Some(61),
            SignatureTag::HeaderSignatures => Some(62),
            SignatureTag::HeaderImmutable => Some(63),
            SignatureTag::HeaderRegions => Some(64),
            SignatureTag::Headeri18Ntable => Some(100),
            SignatureTag::SigSize => Some(257),
            SignatureTag::SigLEMD5_1 => Some(258),
            SignatureTag::SigPGP => Some(259),
            SignatureTag::SigLEMD5_2 => Some(260),
            SignatureTag::SigMD5 => Some(261),
            SignatureTag::SigGPG => Some(262),
            SignatureTag::SigGPG5 => Some(263),
            SignatureTag::BadSHA1_1 => Some(264),
            SignatureTag::BadSHA1_2 => Some(265),
            SignatureTag::PubKeys => Some(266),
            SignatureTag::DSAHeader => Some(267),
            SignatureTag::RSAHeader => Some(268),
            SignatureTag::SHA1Header => Some(269),
            SignatureTag::LongSigSize => Some(270),
            SignatureTag::LongArchiveSize => Some(271),
            SignatureTag::SHA256Header => Some(273),
            SignatureTag::Size => Some(1000),
            SignatureTag::LEMD5_1 => Some(1001),
            SignatureTag::PGP => Some(1002),
            SignatureTag::LEMD5_2 => Some(1003),
            SignatureTag::MD5 => Some(1004),
            SignatureTag::GPG => Some(1005),
            SignatureTag::PGP5 => Some(1006),
            SignatureTag::PayloadSize => Some(1007),
            SignatureTag::ReservedSpace => Some(1008),
            SignatureTag::Other => None,
        }
    }

    /// The tags whose numbers lie between 61 and 1002.
    pub open spec fn of_wire_id_61_1002(id: u32) -> Option<SignatureTag> {
        match id {
            61u32 => Some(SignatureTag::HeaderImage),
            62u32 => Some(SignatureTag::HeaderSignatures),
            63u32 => Some(SignatureTag::HeaderImmutable),
            64u32 => Some(SignatureTag::HeaderRegions),
            100u32 => Some(SignatureTag::Headeri18Ntable),
            257u32 => Some(SignatureTag::SigSize),
            258u32 => Some(SignatureTag::SigLEMD5_1),
            259u32 => Some(SignatureTag::SigPGP),
            260u32 => Some(SignatureTag::SigLEMD5_2),
            261u32 => Some(SignatureTag::SigMD5),
            262u32 => Some(SignatureTag::SigGPG),
            263u32 => Some(SignatureTag::SigGPG5),
            264u32 => Some(SignatureTag::BadSHA1_1),
            265u32 => Some(SignatureTag::BadSHA1_2),
            266u32 => Some(SignatureTag::PubKeys),
            267u32 => Some(SignatureTag::DSAHeader),
            268u32 => Some(SignatureTag::RSAHeader),
            269u32 => Some(SignatureTag::SHA1Header),
            270u32 => Some(SignatureTag::LongSigSize),
            271u32 => Some(SignatureTag::LongArchiveSize),
            273u32 => Some(SignatureTag::SHA256Header),
            1000u32 => Some(SignatureTag::Size),
            1001u32 => Some(SignatureTag::LEMD5_1),
            1002u32 => Some(SignatureTag::PGP),
            _ => None,
        }
    }

    fn from_u32_61_1002(id: u32) -> (tag: Option<SignatureTag>)
        ensures
            tag == Self::of_wire_id_61_1002(id),
    {
        match id {
            61 => Some(SignatureTag::HeaderImage),
            62 => Some(SignatureTag::HeaderSignatures),
            63 => Some(SignatureTag::HeaderImmutable),
            64 => Some(SignatureTag::HeaderRegions),
            100 => Some(SignatureTag::Headeri18Ntable),
            257 => Some(SignatureTag::SigSize),
            258 => Some(SignatureTag::SigLEMD5_1),
            259 => Some(SignatureTag::SigPGP),
            260 => Some(SignatureTag::SigLEMD5_2),
            261 => Some(SignatureTag::SigMD5),
            262 => Some(SignatureTag::SigGPG),
            263 => Some(SignatureTag::SigGPG5),
            264 => Some(SignatureTag::BadSHA1_1),
            265 => Some(SignatureTag::BadSHA1_2),
            266 => Some(SignatureTag::PubKeys),
            267 => Some(SignatureTag::DSAHeader),
            268 => Some(SignatureTag::RSAHeader),
            269 => Some(SignatureTag::SHA1Header),
            270 => Some(SignatureTag::LongSigSize),
            271 => Some(SignatureTag::LongArchiveSize),
            273 => Some(SignatureTag::SHA256Header),
            1000 => Some(SignatureTag::Size),
            1001 => Some(SignatureTag::LEMD5_1),
            1002 => Some(SignatureTag::PGP),
            _ => None,
        }
    }

    /// The tags whose numbers lie between 1003 and 1008.
    pub open spec fn of_wire_id_1003_1008(id: u32) -> Option<SignatureTag> {
        match id {
            1003u32 => Some(SignatureTag::LEMD5_2),
            1004u32 => Some(SignatureTag::MD5),
            1005u32 => Some(SignatureTag::GPG),
            1006u32 => Some(SignatureTag::PGP5),
            1007u32 => Some(SignatureTag::PayloadSize),
            1008u32 => Some(SignatureTag::ReservedSpace),
            _ => None,
        }
    }

    fn from_u32_1003_1008(id: u32) -> (tag: Option<SignatureTag>)
        ensures
            tag == Self::of_wire_id_1003_1008(id),
    {
        match id {
            1003 => Some(SignatureTag::LEMD5_2),
            1004 => Some(SignatureTag::MD5),
            1005 => Some(SignatureTag::GPG),
            1006 => Some(SignatureTag::PGP5),
            1007 => Some(SignatureTag::PayloadSize),
            1008 => Some(SignatureTag::ReservedSpace),
            _ => None,
        }
    }

    /// The tag that a number on the wire stands for, if it is a known one.
    pub open spec fn of_wire_id(id: u32) -> Option<SignatureTag> {
        if id <= 1002 {
            Self::of_wire_id_61_1002(id)
        } else {
            Self::of_wire_id_1003_1008(id)
        }
    }
}

impl TagNamespace for SignatureTag {
    open spec fn spec_to_u32(self) -> Option<u32> {
        self.wire_id()
    }

    open spec fn spec_from_u32(id: u32) -> Option<Self> {
        Self::of_wire_id(id)
    }

    open spec fn unknown() -> Self {
        SignatureTag::Other
    }

    proof fn lemma_ids_round_trip(tag: Self) {
        match tag {
            SignatureTag::HeaderImage => {
                assert(SignatureTag::of_wire_id_61_1002(61) == Some(SignatureTag::HeaderImage));
            },
            SignatureTag::HeaderSignatures => {
                assert(SignatureTag::of_wire_id_61_1002(62) == Some(SignatureTag::HeaderSignatures));
            },
            SignatureTag::HeaderImmutable => {
                assert(SignatureTag::of_wire_id_61_1002(63) == Some(SignatureTag::HeaderImmutable));
            },
            SignatureTag::HeaderRegions => {
                assert(SignatureTag::of_wire_id_61_1002(64) == Some(SignatureTag::HeaderRegions));
            },
            SignatureTag::Headeri18Ntable => {
                assert(SignatureTag::of_wire_id_61_1002(100) == Some(SignatureTag::Headeri18Ntable));
            },
            SignatureTag::SigSize => {
                assert(SignatureTag::of_wire_id_61_1002(257) == Some(SignatureTag::SigSize));
            },
            SignatureTag::SigLEMD5_1 => {
                assert(SignatureTag::of_wire_id_61_1002(258) == Some(SignatureTag::SigLEMD5_1));
            },
            SignatureTag::SigPGP => {
                assert(SignatureTag::of_wire_id_61_1002(259) == Some(SignatureTag::SigPGP));
            },
            SignatureTag::SigLEMD5_2 => {
                assert(SignatureTag::of_wire_id_61_1002(260) == Some(SignatureTag::SigLEMD5_2));
            },
            SignatureTag::SigMD5 => {
                assert(SignatureTag::of_wire_id_61_1002(261) == Some(SignatureTag::SigMD5));
            },
            SignatureTag::SigGPG => {
                assert(SignatureTag::of_wire_id_61_1002(262) == Some(SignatureTag::SigGPG));
            },
            SignatureTag::SigGPG5 => {
                assert(SignatureTag::of_wire_id_61_1002(263) == Some(SignatureTag::SigGPG5));
            },
            SignatureTag::BadSHA1_1 => {
                assert(SignatureTag::of_wire_id_61_1002(264) == Some(SignatureTag::BadSHA1_1));
            },
            SignatureTag::BadSHA1_2 => {
                assert(SignatureTag::of_wire_id_61_1002(265) == Some(SignatureTag::BadSHA1_2));
            },
            SignatureTag::PubKeys => {
                assert(SignatureTag::of_wire_id_61_1002(266) == Some(SignatureTag::PubKeys));
            },
            SignatureTag::DSAHeader => {
                assert(SignatureTag::of_wire_id_61_1002(267) == Some(SignatureTag::DSAHeader));
            },
            SignatureTag::RSAHeader => {
                assert(SignatureTag::of_wire_id_61_1002(268) == Some(SignatureTag::RSAHeader));
            },
            SignatureTag::SHA1Header => {
                assert(SignatureTag::of_wire_id_61_1002(269) == Some(SignatureTag::SHA1Header));
            },
            SignatureTag::LongSigSize => {
                assert(SignatureTag::of_wire_id_61_1002(270) == Some(SignatureTag::LongSigSize));
            },
            SignatureTag::LongArchiveSize => {
                assert(SignatureTag::of_wire_id_61_1002(271) == Some(SignatureTag::LongArchiveSize));
            },
            SignatureTag::SHA256Header => {
                assert(SignatureTag::of_wire_id_61_1002(273) == Some(SignatureTag::SHA256Header));
            },
            SignatureTag::Size => {
                assert(SignatureTag::of_wire_id_61_1002(1000) == Some(SignatureTag::Size));
            },
            SignatureTag::LEMD5_1 => {
                assert(SignatureTag::of_wire_id_61_1002(1001) == Some(SignatureTag::LEMD5_1));
            },
            SignatureTag::PGP => {
                assert(SignatureTag::of_wire_id_61_1002(1002) == Some(SignatureTag::PGP));
            },
            SignatureTag::LEMD5_2 => {
                assert(SignatureTag::of_wire_id_1003_1008(1003) == Some(SignatureTag::LEMD5_2));
            },
            SignatureTag::MD5 => {
                assert(SignatureTag::of_wire_id_1003_1008(1004) == Some(SignatureTag::MD5));
            },
            SignatureTag::GPG => {
                assert(SignatureTag::of_wire_id_1003_1008(1005) == Some(SignatureTag::GPG));
            },
            SignatureTag::PGP5 => {
                assert(SignatureTag::of_wire_id_1003_1008(1006) == Some(SignatureTag::PGP5));
            },
            SignatureTag::PayloadSize => {
                assert(SignatureTag::of_wire_id_1003_1008(1007) == Some(SignatureTag::PayloadSize));
            },
            SignatureTag::ReservedSpace => {
                assert(SignatureTag::of_wire_id_1003_1008(1008) == Some(SignatureTag::ReservedSpace));
            },
            SignatureTag::Other => {},
        }
    }

    fn to_u32(&self) -> (id: Option<u32>) {
        match self {
            SignatureTag::HeaderImage => Some(61),
            SignatureTag::HeaderSignatures => Some(62),
            SignatureTag::HeaderImmutable => Some(63),
            SignatureTag::HeaderRegions => Some(64),
            SignatureTag::Headeri18Ntable => Some(100),
            SignatureTag::SigSize => Some(257),
            SignatureTag::SigLEMD5_1 => Some(258),
            SignatureTag::SigPGP => Some(259),
            SignatureTag::SigLEMD5_2 => Some(260),
            SignatureTag::SigMD5 => Some(261),
            SignatureTag::SigGPG => Some(262),
            SignatureTag::SigGPG5 => Some(263),
            SignatureTag::BadSHA1_1 => Some(264),
            SignatureTag::BadSHA1_2 => Some(265),
            SignatureTag::PubKeys => Some(266),
            SignatureTag::DSAHeader => Some(267),
            SignatureTag::RSAHeader => Some(268),
            SignatureTag::SHA1Header => Some(269),
            SignatureTag::LongSigSize => Some(270),
            SignatureTag::LongArchiveSize => Some(271),
            SignatureTag::SHA256Header => Some(273),
            SignatureTag::Size => Some(1000),
            SignatureTag::LEMD5_1 => Some(1001),
            SignatureTag::PGP => Some(1002),
            SignatureTag::LEMD5_2 => Some(1003),
            SignatureTag::MD5 => Some(1004),
            SignatureTag::GPG => Some(1005),
            SignatureTag::PGP5 => Some(1006),
            SignatureTag::PayloadSize => Some(1007),
            SignatureTag::ReservedSpace => Some(1008),
            SignatureTag::Other => None,
        }
    }

    fn from_u32(id: u32) -> (tag: Option<Self>) {
        if id <= 1002 {
            Self::from_u32_61_1002(id)
        } else {
            Self::from_u32_1003_1008(id)
        }
    }

    fn other() -> (tag: Self) {
        SignatureTag::Other
    }

    fn same(&self, other: &Self) -> (b: bool) {
        *self == *other
    }
}

impl Default for SignatureTag {
    fn default() -> (tag: SignatureTag)
        ensures
            tag == SignatureTag::Other,
    {
        SignatureTag::Other
    }
}

} // verus!
