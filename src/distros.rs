//! The built-in distributions and their catalog.
use crate::catalog::{primary, select_palette, Art, Catalog, DistroRecord};
use crate::colors::default_color;
use crate::text::template_width;
use crate::colors::art_lines_of;
use crate::matcher::{
    all_plain, classify, is_last_match, is_last_occurrence, is_plain, none_matches, none_occurs,
    normalized, views, PLAIN_LIMIT,
};
use owo_colors::{AnsiColors, DynColors};
use vstd::prelude::*;

verus! {

/// Art template of `Distro::ARCH`.
pub const ARCH_ART: &'static str = "{0}      /\\\n{0}     /  \\\n{0}    /\\   \\\n{0}   /      \\\n{0}  /   ,,   \\\n{0} /   |  |  -\\\n{0}/_-''    ''-_\\";

/// Art template of `Distro::CENTOS`.
pub const CENTOS_ART: &'static str = "{0} ____{1}^{2}____\n{0}|\\   {1}|{2}   /|\n{0}| \\  {1}|{2}  / |\n{3}<---- {0}+{1} ---->\n{2}| /  {3}|{0}  \\ |\n{2}|/___{3}|{0}___\\|\n{3}     v";

/// Art template of `Distro::DEBIAN`.
pub const DEBIAN_ART: &'static str = "{0}   _,met$$$$gg.\n{0} ,g$$$$$$$$$$$$P.\n{0},g$$P\"     \"\"\"Y$$.\n{0}$$P'    ,ggs.  `$$b:\n{0}$$P    d$'   ,  $$P\n{0}$$:    $$.   -  ,d$$'\n{0}Y$$;   Y$b._   _,d$P'\n{0} Y$$.   `.`\"Y$$$$P\"'\n{0}  `$$b";

/// Art template of `Distro::FEDORA`.
pub const FEDORA_ART: &'static str = "{0}      _____\n{0}     /   __)\\\n{0}     |  /  \\ \\\n{0}  ___|  |__/ /\n{0} / (_    _)_/\n{0}/ /  |  |\n{0}\\ \\__/  |\n{0} \\(_____/";

/// Art template of `Distro::GENTOO`.
pub const GENTOO_ART: &'static str = "{0} _-----_\n{0}(       \\\n{0}\\    {1}0{0}   \\\n{0} \\        )\n{0} /      _/\n{0}(     _-\n{0}\\____-";

/// Art template of `Distro::MINT`.
pub const MINT_ART: &'static str = "{0} ___________\n{0}|_          \\\n{0}  | {1}| _____ {0}|\n{0}  | {1}| | | | {0}|\n{0}  | {1}| | | | {0}|\n{0}  | {1}\\__{1}___/ {0}|\n{0}  \\_________/";

/// Art template of `Distro::MANJARO`.
pub const MANJARO_ART: &'static str = "{0}||||||||| ||||\n{0}||||||||| ||||\n{0}||||      ||||\n{0}|||| |||| ||||\n{0}|||| |||| ||||\n{0}|||| |||| ||||\n{0}|||| |||| ||||";

/// Art template of `Distro::POPOS`.
pub const POPOS_ART: &'static str = "{0}  ______\n{0} /  __  \\   {1}_{0}\n{0}|  |__|  | {1}/ /{0}\n{0}|   ____/ {1}/ /{0}\n{0}|  |     {1}/_/{0}\n{0}|__|  {1}_____";

/// Art template of `Distro::SOLUS`.
pub const SOLUS_ART: &'static str = "{0}      /|\n{0}     / |\\\n{0}    /  | \\ _\n{0}   /___|__\\_\\\n{0}{1}\\_____________/\n{1} \\___________/";

/// Art template of `Distro::UBUNTU`.
pub const UBUNTU_ART: &'static str = "{0}         _\n{0}     ---(_)\n{0} _/  ---  \\\n{0}(_) |   |\n{0}  \\  --- _/\n{0}     ---(_)";

/// Art template of `Distro::VOID`.
pub const VOID_ART: &'static str = "{0}    _______\n{0} _ \\______ -\n{0}| \\  ___  \\ |\n{0}| | /   \\ | |\n{0}| | \\___/ | |\n{0}| \\______ \\_|\n{0} -_______\\";

/// Art template of `Distro::ELEMENTARY`.
pub const ELEMENTARY_ART: &'static str = "{0}  _______\n{0} / ____  \\\n{0}/  |  /  /\\\n{0}|__\\ /  / |\n{0}\\   /__/  /\n{0} \\_______/";

/// Art template of `Distro::OPENSUSE`.
pub const OPENSUSE_ART: &'static str = "{0}  _______\n{0}__|   __ \\\n{0}     / .\\ \\\n{0}     \\__/ |\n{0}   _______|\n{0}   \\_______\n{0}__________/";

/// Art template of `Distro::OPENSUSELEAP`.
pub const OPENSUSELEAP_ART: &'static str = "{0}    ====\n{0}  ====  ====\n{0}====  ==  ====\n{0}==  ======  ==\n{0}====  ==  ====\n{0}  ====  ====\n{0}    ====";

/// Art template of `Distro::OPENSUSETUMBLEWEED`.
pub const OPENSUSETUMBLEWEED_ART: &'static str = "{0}  ......     ......\n{0}.~      ~. .~      ~.\n{0}.        .~.        .\n{0}.~      ~. .~      ~.\n{0}  ......     ......";

/// Art template of `Distro::DEFAULT`.
pub const DEFAULT_ART: &'static str = "{0}    .--.\n{0}   |o_o |\n{0}   |:_/ |\n{0}  //   \\ \\\n{0} (|     | )\n{0}/'\\_   _/`\\\n{0}\\___)=(___/";

/// A supported distribution. `DEFAULT` stands for any name that no other
/// distribution matches.
#[allow(non_camel_case_types)]
#[derive(Clone, Copy, Debug, PartialEq, Eq, Structural)]
pub enum Distro {
    ARCH,
    CENTOS,
    DEBIAN,
    FEDORA,
    GENTOO,
    MINT,
    MANJARO,
    POPOS,
    SOLUS,
    UBUNTU,
    VOID,
    ELEMENTARY,
    OPENSUSE,
    OPENSUSELEAP,
    OPENSUSETUMBLEWEED,
    DEFAULT,
}

/// Number of distributions with a pattern: every one but `DEFAULT`.
pub const DISTRO_COUNT: usize = 15;

impl Distro {
    /// The position of the distribution in the catalog; `DEFAULT` comes last
    /// and is not matched against.
    pub open spec fn index(self) -> int {
        match self {
            Distro::ARCH => 0,
            Distro::CENTOS => 1,
            Distro::DEBIAN => 2,
            Distro::FEDORA => 3,
            Distro::GENTOO => 4,
            Distro::MINT => 5,
            Distro::MANJARO => 6,
            Distro::POPOS => 7,
            Distro::SOLUS => 8,
            Distro::UBUNTU => 9,
            Distro::VOID => 10,
            Distro::ELEMENTARY => 11,
            Distro::OPENSUSE => 12,
            Distro::OPENSUSELEAP => 13,
            Distro::OPENSUSETUMBLEWEED => 14,
            Distro::DEFAULT => 15,
        }
    }

    /// The display name of the distribution.
    pub open spec fn name_spec(self) -> Seq<char> {
        match self {
            Distro::ARCH => "Arch Linux"@,
            Distro::CENTOS => "CentOS"@,
            Distro::DEBIAN => "Debian"@,
            Distro::FEDORA => "Fedora"@,
            Distro::GENTOO => "Gentoo"@,
            Distro::MINT => "Linux Mint"@,
            Distro::MANJARO => "Manjaro"@,
            Distro::POPOS => "Pop!_OS"@,
            Distro::SOLUS => "Solus"@,
            Distro::UBUNTU => "Ubuntu"@,
            Distro::VOID => "Void"@,
            Distro::ELEMENTARY => "elementary OS"@,
            Distro::OPENSUSE => "openSUSE"@,
            Distro::OPENSUSELEAP => "openSUSE Leap"@,
            Distro::OPENSUSETUMBLEWEED => "openSUSE Tumbleweed"@,
            Distro::DEFAULT => "Linux"@,
        }
    }

    /// The distribution at position `i` of the catalog.
    pub open spec fn spec_at(i: int) -> Distro {
        if i == 0 {
            Distro::ARCH
        } else if i == 1 {
            Distro::CENTOS
        } else if i == 2 {
            Distro::DEBIAN
        } else if i == 3 {
            Distro::FEDORA
        } else if i == 4 {
            Distro::GENTOO
        } else if i == 5 {
            Distro::MINT
        } else if i == 6 {
            Distro::MANJARO
        } else if i == 7 {
            Distro::POPOS
        } else if i == 8 {
            Distro::SOLUS
        } else if i == 9 {
            Distro::UBUNTU
        } else if i == 10 {
            Distro::VOID
        } else if i == 11 {
            Distro::ELEMENTARY
        } else if i == 12 {
            Distro::OPENSUSE
        } else if i == 13 {
            Distro::OPENSUSELEAP
        } else if i == 14 {
            Distro::OPENSUSETUMBLEWEED
        } else {
            Distro::DEFAULT
        }
    }

    /// The pattern that a normalised name is tested against: the normal form
    /// of the display name. `DEFAULT` is never tested.
    pub open spec fn pattern_spec(self) -> Seq<char> {
        match self {
            Distro::ARCH => "arch"@,
            Distro::CENTOS => "centos"@,
            Distro::DEBIAN => "debian"@,
            Distro::FEDORA => "fedora"@,
            Distro::GENTOO => "gentoo"@,
            Distro::MINT => "mint"@,
            Distro::MANJARO => "manjaro"@,
            Distro::POPOS => "popos"@,
            Distro::SOLUS => "solus"@,
            Distro::UBUNTU => "ubuntu"@,
            Distro::VOID => "void"@,
            Distro::ELEMENTARY => "elementaryos"@,
            Distro::OPENSUSE => "opensuse"@,
            Distro::OPENSUSELEAP => "opensuseleap"@,
            Distro::OPENSUSETUMBLEWEED => "opensusetumbleweed"@,
            Distro::DEFAULT => "linux"@,
        }
    }

    /// The pattern of the distribution (see `pattern_spec`).
    pub fn pattern(&self) -> (r: &'static str)
        ensures
            r@ == self.pattern_spec(),
    {
        match self {
            Distro::ARCH => "arch",
            Distro::CENTOS => "centos",
            Distro::DEBIAN => "debian",
            Distro::FEDORA => "fedora",
            Distro::GENTOO => "gentoo",
            Distro::MINT => "mint",
            Distro::MANJARO => "manjaro",
            Distro::POPOS => "popos",
            Distro::SOLUS => "solus",
            Distro::UBUNTU => "ubuntu",
            Distro::VOID => "void",
            Distro::ELEMENTARY => "elementaryos",
            Distro::OPENSUSE => "opensuse",
            Distro::OPENSUSELEAP => "opensuseleap",
            Distro::OPENSUSETUMBLEWEED => "opensusetumbleweed",
            Distro::DEFAULT => "linux",
        }
    }

    /// Every pattern of the catalog is a short run of lower-case letters, so
    /// matching one is finding it in the normalised name.
    pub proof fn lemma_patterns_plain()
        ensures
            all_plain(Distro::patterns()),
    {
        reveal_strlit("arch");
        reveal_strlit("centos");
        reveal_strlit("debian");
        reveal_strlit("fedora");
        reveal_strlit("gentoo");
        reveal_strlit("mint");
        reveal_strlit("manjaro");
        reveal_strlit("popos");
        reveal_strlit("solus");
        reveal_strlit("ubuntu");
        reveal_strlit("void");
        reveal_strlit("elementaryos");
        reveal_strlit("opensuse");
        reveal_strlit("opensuseleap");
        reveal_strlit("opensusetumbleweed");
        assert forall|i: int| 0 <= i < DISTRO_COUNT implies is_plain(
            #[trigger] Distro::patterns()[i],
        ) && Distro::patterns()[i].len() <= PLAIN_LIMIT by {
            assert(Distro::patterns()[i] == Distro::spec_at(i).pattern_spec());
        }
    }

    /// The patterns of the catalog, in order.
    pub open spec fn patterns() -> Seq<Seq<char>> {
        Seq::new(DISTRO_COUNT as nat, |i: int| Distro::spec_at(i).pattern_spec())
    }

    /// The distribution at position `i` of the catalog.
    pub fn at(i: usize) -> (r: Distro)
        ensures
            r == Distro::spec_at(i as int),
    {
        if i == 0 {
            Distro::ARCH
        } else if i == 1 {
            Distro::CENTOS
        } else if i == 2 {
            Distro::DEBIAN
        } else if i == 3 {
            Distro::FEDORA
        } else if i == 4 {
            Distro::GENTOO
        } else if i == 5 {
            Distro::MINT
        } else if i == 6 {
            Distro::MANJARO
        } else if i == 7 {
            Distro::POPOS
        } else if i == 8 {
            Distro::SOLUS
        } else if i == 9 {
            Distro::UBUNTU
        } else if i == 10 {
            Distro::VOID
        } else if i == 11 {
            Distro::ELEMENTARY
        } else if i == 12 {
            Distro::OPENSUSE
        } else if i == 13 {
            Distro::OPENSUSELEAP
        } else if i == 14 {
            Distro::OPENSUSETUMBLEWEED
        } else {
            Distro::DEFAULT
        }
    }

    /// The catalog of all distributions: every one but `DEFAULT` in catalog
    /// order, and `DEFAULT` as the fallback.
    pub fn catalog() -> (c: Catalog)
        ensures
            c.records.len() == DISTRO_COUNT,
            c.patterns() == Distro::patterns(),
            forall|i: int| 0 <= i < DISTRO_COUNT ==> (#[trigger] c.records@[i]).wf(),
            forall|i: int|
                0 <= i < DISTRO_COUNT ==> (#[trigger] c.records@[i]).name@ == Distro::spec_at(
                    i,
                ).name_spec(),
            c.fallback.name@ == Distro::DEFAULT.name_spec(),
            c.fallback.wf(),
    {
        let mut records: Vec<DistroRecord> = Vec::new();
        let mut i: usize = 0;
        while i < DISTRO_COUNT
            invariant
                i <= DISTRO_COUNT,
                records.len() == i,
                forall|k: int|
                    0 <= k < i ==> (#[trigger] records@[k]).name@ == Distro::spec_at(k).name_spec()
                        && records@[k].pattern@ == Distro::spec_at(k).pattern_spec()
                        && records@[k].wf(),
            decreases DISTRO_COUNT - i,
        {
            records.push(Distro::at(i).record());
            i = i + 1;
        }
        let c = Catalog { records, fallback: Distro::DEFAULT.record() };
        proof {
            assert(c.patterns() =~= Distro::patterns());
        }
        c
    }

    /// The patterns of the catalog, in order, without building its records.
    pub fn pattern_list() -> (r: Vec<String>)
        ensures
            views(r@) == Distro::patterns(),
    {
        let mut out: Vec<String> = Vec::new();
        let mut i: usize = 0;
        while i < DISTRO_COUNT
            invariant
                i <= DISTRO_COUNT,
                views(out@) =~= Distro::patterns().take(i as int),
            decreases DISTRO_COUNT - i,
        {
            let p = String::from_str(Distro::at(i).pattern());
            proof {
                assert(views(out@.push(p)) =~= views(out@).push(p@));
            }
            out.push(p);
            i = i + 1;
        }
        assert(Distro::patterns().take(DISTRO_COUNT as int) =~= Distro::patterns());
        out
    }

    /// Finds the distribution that a free-form name designates: the name is
    /// normalised and every pattern of the catalog is looked for in it; when
    /// several occur, the one latest in the catalog wins. `DEFAULT` exactly
    /// when none occurs.
    pub fn search(name: &str) -> (r: Distro)
        ensures
            r == Distro::DEFAULT <==> none_occurs(Distro::patterns(), normalized(name@)),
            r == Distro::DEFAULT <==> none_matches(Distro::patterns(), normalized(name@)),
            r != Distro::DEFAULT ==> is_last_occurrence(
                Distro::patterns(),
                normalized(name@),
                r.index(),
            ),
            r != Distro::DEFAULT ==> is_last_match(Distro::patterns(), normalized(name@), r.index()),
    {
        let patterns = Distro::pattern_list();
        proof {
            Distro::lemma_patterns_plain();
        }
        match classify(&patterns, name) {
            Some(i) => Distro::at(i),
            None => Distro::DEFAULT,
        }
    }

    /// The art template of the distribution.
    pub open spec fn template_spec(self) -> Seq<char> {
        match self {
            Distro::ARCH => ARCH_ART@,
            Distro::CENTOS => CENTOS_ART@,
            Distro::DEBIAN => DEBIAN_ART@,
            Distro::FEDORA => FEDORA_ART@,
            Distro::GENTOO => GENTOO_ART@,
            Distro::MINT => MINT_ART@,
            Distro::MANJARO => MANJARO_ART@,
            Distro::POPOS => POPOS_ART@,
            Distro::SOLUS => SOLUS_ART@,
            Distro::UBUNTU => UBUNTU_ART@,
            Distro::VOID => VOID_ART@,
            Distro::ELEMENTARY => ELEMENTARY_ART@,
            Distro::OPENSUSE => OPENSUSE_ART@,
            Distro::OPENSUSELEAP => OPENSUSELEAP_ART@,
            Distro::OPENSUSETUMBLEWEED => OPENSUSETUMBLEWEED_ART@,
            Distro::DEFAULT => DEFAULT_ART@,
        }
    }

    /// The ANSI palette of the distribution as written in the catalog.
    pub open spec fn ansi_spec(self) -> Seq<DynColors> {
        match self {
            Distro::ARCH => seq![DynColors::Ansi(AnsiColors::Cyan)],
            Distro::CENTOS => seq![DynColors::Ansi(AnsiColors::Yellow), DynColors::Ansi(AnsiColors::Green), DynColors::Ansi(AnsiColors::Blue), DynColors::Ansi(AnsiColors::Magenta)],
            Distro::DEBIAN => seq![DynColors::Ansi(AnsiColors::Red)],
            Distro::FEDORA => seq![DynColors::Ansi(AnsiColors::Blue)],
            Distro::GENTOO => seq![DynColors::Ansi(AnsiColors::Magenta), DynColors::Ansi(AnsiColors::White)],
            Distro::MINT => seq![DynColors::Ansi(AnsiColors::Green), DynColors::Ansi(AnsiColors::White)],
            Distro::MANJARO => seq![DynColors::Ansi(AnsiColors::Green)],
            Distro::POPOS => seq![DynColors::Ansi(AnsiColors::Cyan), DynColors::Ansi(AnsiColors::White)],
            Distro::SOLUS => seq![DynColors::Ansi(AnsiColors::White), DynColors::Ansi(AnsiColors::Blue)],
            Distro::UBUNTU => seq![DynColors::Ansi(AnsiColors::Red)],
            Distro::VOID => seq![DynColors::Ansi(AnsiColors::Green)],
            Distro::ELEMENTARY => seq![DynColors::Ansi(AnsiColors::White)],
            Distro::OPENSUSE => seq![DynColors::Ansi(AnsiColors::Green)],
            Distro::OPENSUSELEAP => seq![DynColors::Ansi(AnsiColors::Green)],
            Distro::OPENSUSETUMBLEWEED => seq![DynColors::Ansi(AnsiColors::Green)],
            Distro::DEFAULT => seq![],
        }
    }

    /// The true-colour palette of the distribution.
    pub open spec fn hex_spec(self) -> Seq<DynColors> {
        match self {
            Distro::ARCH => seq![DynColors::Rgb(23, 147, 209)],
            Distro::CENTOS => seq![DynColors::Rgb(239, 167, 36), DynColors::Rgb(38, 38, 120), DynColors::Rgb(156, 185, 54), DynColors::Rgb(147, 33, 102)],
            Distro::DEBIAN => seq![DynColors::Rgb(215, 10, 83)],
            Distro::FEDORA => seq![DynColors::Rgb(60, 110, 180)],
            Distro::GENTOO => seq![DynColors::Rgb(84, 72, 122), DynColors::Rgb(221, 218, 236)],
            Distro::MINT => seq![DynColors::Rgb(135, 207, 62), DynColors::Rgb(255, 255, 255)],
            Distro::MANJARO => seq![DynColors::Rgb(53, 191, 92)],
            Distro::POPOS => seq![DynColors::Rgb(72, 185, 199), DynColors::Rgb(255, 255, 255)],
            Distro::SOLUS => seq![DynColors::Rgb(255, 255, 255), DynColors::Rgb(82, 148, 226)],
            Distro::UBUNTU => seq![DynColors::Rgb(233, 84, 32)],
            Distro::VOID => seq![DynColors::Rgb(71, 128, 97)],
            Distro::ELEMENTARY => seq![DynColors::Rgb(100, 186, 255)],
            Distro::OPENSUSE => seq![DynColors::Rgb(115, 186, 37)],
            Distro::OPENSUSELEAP => seq![DynColors::Rgb(115, 186, 37)],
            Distro::OPENSUSETUMBLEWEED => seq![DynColors::Rgb(115, 186, 37)],
            Distro::DEFAULT => seq![],
        }
    }

    /// The ANSI palette of the catalog record: the written one, or the
    /// default colour alone where none is written.
    pub open spec fn record_ansi(self) -> Seq<DynColors> {
        if self.ansi_spec().len() > 0 {
            self.ansi_spec()
        } else {
            seq![default_color()]
        }
    }

    /// The palette of the distribution for a colour mode.
    pub open spec fn palette_spec(self, mode: Option<bool>) -> Seq<DynColors> {
        select_palette(self.record_ansi(), self.hex_spec(), mode)
    }

    /// The display name of the distribution.
    pub fn name(&self) -> (r: &'static str)
        ensures
            r@ == self.name_spec(),
    {
        match self {
            Distro::ARCH => "Arch Linux",
            Distro::CENTOS => "CentOS",
            Distro::DEBIAN => "Debian",
            Distro::FEDORA => "Fedora",
            Distro::GENTOO => "Gentoo",
            Distro::MINT => "Linux Mint",
            Distro::MANJARO => "Manjaro",
            Distro::POPOS => "Pop!_OS",
            Distro::SOLUS => "Solus",
            Distro::UBUNTU => "Ubuntu",
            Distro::VOID => "Void",
            Distro::ELEMENTARY => "elementary OS",
            Distro::OPENSUSE => "openSUSE",
            Distro::OPENSUSELEAP => "openSUSE Leap",
            Distro::OPENSUSETUMBLEWEED => "openSUSE Tumbleweed",
            Distro::DEFAULT => "Linux",
        }
    }

    /// The art template of the distribution.
    pub fn template(&self) -> (r: &'static str)
        ensures
            r@ == self.template_spec(),
    {
        match self {
            Distro::ARCH => ARCH_ART,
            Distro::CENTOS => CENTOS_ART,
            Distro::DEBIAN => DEBIAN_ART,
            Distro::FEDORA => FEDORA_ART,
            Distro::GENTOO => GENTOO_ART,
            Distro::MINT => MINT_ART,
            Distro::MANJARO => MANJARO_ART,
            Distro::POPOS => POPOS_ART,
            Distro::SOLUS => SOLUS_ART,
            Distro::UBUNTU => UBUNTU_ART,
            Distro::VOID => VOID_ART,
            Distro::ELEMENTARY => ELEMENTARY_ART,
            Distro::OPENSUSE => OPENSUSE_ART,
            Distro::OPENSUSELEAP => OPENSUSELEAP_ART,
            Distro::OPENSUSETUMBLEWEED => OPENSUSETUMBLEWEED_ART,
            Distro::DEFAULT => DEFAULT_ART,
        }
    }

    fn ansi(&self) -> (r: Vec<DynColors>)
        ensures
            r@ == self.ansi_spec(),
    {
        let r = match self {
            Distro::ARCH => vec![DynColors::Ansi(AnsiColors::Cyan)],
            Distro::CENTOS => vec![DynColors::Ansi(AnsiColors::Yellow), DynColors::Ansi(AnsiColors::Green), DynColors::Ansi(AnsiColors::Blue), DynColors::Ansi(AnsiColors::Magenta)],
            Distro::DEBIAN => vec![DynColors::Ansi(AnsiColors::Red)],
            Distro::FEDORA => vec![DynColors::Ansi(AnsiColors::Blue)],
            Distro::GENTOO => vec![DynColors::Ansi(AnsiColors::Magenta), DynColors::Ansi(AnsiColors::White)],
            Distro::MINT => vec![DynColors::Ansi(AnsiColors::Green), DynColors::Ansi(AnsiColors::White)],
            Distro::MANJARO => vec![DynColors::Ansi(AnsiColors::Green)],
            Distro::POPOS => vec![DynColors::Ansi(AnsiColors::Cyan), DynColors::Ansi(AnsiColors::White)],
            Distro::SOLUS => vec![DynColors::Ansi(AnsiColors::White), DynColors::Ansi(AnsiColors::Blue)],
            Distro::UBUNTU => vec![DynColors::Ansi(AnsiColors::Red)],
            Distro::VOID => vec![DynColors::Ansi(AnsiColors::Green)],
            Distro::ELEMENTARY => vec![DynColors::Ansi(AnsiColors::White)],
            Distro::OPENSUSE => vec![DynColors::Ansi(AnsiColors::Green)],
            Distro::OPENSUSELEAP => vec![DynColors::Ansi(AnsiColors::Green)],
            Distro::OPENSUSETUMBLEWEED => vec![DynColors::Ansi(AnsiColors::Green)],
            Distro::DEFAULT => vec![],
        };
        proof {
            assert(r@ =~= self.ansi_spec());
        }
        r
    }

    fn hex(&self) -> (r: Vec<DynColors>)
        ensures
            r@ == self.hex_spec(),
    {
        let r = match self {
            Distro::ARCH => vec![DynColors::Rgb(23, 147, 209)],
            Distro::CENTOS => vec![DynColors::Rgb(239, 167, 36), DynColors::Rgb(38, 38, 120), DynColors::Rgb(156, 185, 54), DynColors::Rgb(147, 33, 102)],
            Distro::DEBIAN => vec![DynColors::Rgb(215, 10, 83)],
            Distro::FEDORA => vec![DynColors::Rgb(60, 110, 180)],
            Distro::GENTOO => vec![DynColors::Rgb(84, 72, 122), DynColors::Rgb(221, 218, 236)],
            Distro::MINT => vec![DynColors::Rgb(135, 207, 62), DynColors::Rgb(255, 255, 255)],
            Distro::MANJARO => vec![DynColors::Rgb(53, 191, 92)],
            Distro::POPOS => vec![DynColors::Rgb(72, 185, 199), DynColors::Rgb(255, 255, 255)],
            Distro::SOLUS => vec![DynColors::Rgb(255, 255, 255), DynColors::Rgb(82, 148, 226)],
            Distro::UBUNTU => vec![DynColors::Rgb(233, 84, 32)],
            Distro::VOID => vec![DynColors::Rgb(71, 128, 97)],
            Distro::ELEMENTARY => vec![DynColors::Rgb(100, 186, 255)],
            Distro::OPENSUSE => vec![DynColors::Rgb(115, 186, 37)],
            Distro::OPENSUSELEAP => vec![DynColors::Rgb(115, 186, 37)],
            Distro::OPENSUSETUMBLEWEED => vec![DynColors::Rgb(115, 186, 37)],
            Distro::DEFAULT => vec![],
        };
        proof {
            assert(r@ =~= self.hex_spec());
        }
        r
    }

    /// The catalog record of the distribution.
    pub fn record(&self) -> (r: DistroRecord)
        ensures
            r.name@ == self.name_spec(),
            r.template@ == self.template_spec(),
            r.ansi@ == self.record_ansi(),
            r.hex@ == self.hex_spec(),
            r.pattern@ == self.pattern_spec(),
            r.wf(),
    {
        DistroRecord::new(self.name(), self.template(), self.ansi(), self.hex(), Some(self.pattern()))
    }

    /// The palette of the distribution for a colour mode: none without
    /// colour, ANSI for `Some(false)`, true colour for `Some(true)` (ANSI
    /// where the distribution has no true colours).
    pub fn colors(&self, mode: Option<bool>) -> (r: Vec<DynColors>)
        ensures
            r@ == self.palette_spec(mode),
    {
        let rec = self.record();
        rec.colors(mode)
    }

    /// The primary colour of the distribution for a colour mode: the first
    /// palette entry, or the default colour when the palette is empty.
    pub fn color(&self, mode: Option<bool>) -> (r: DynColors)
        ensures
            r == primary(self.palette_spec(mode)),
    {
        let rec = self.record();
        rec.color(mode)
    }

    /// The art of the distribution for a colour mode: its template rendered
    /// with the mode's palette (bold when the palette has colours), and the
    /// template's width on screen.
    pub fn ascii(&self, mode: Option<bool>) -> (r: Art)
        ensures
            r.lines@.map_values(|l: String| l@) == art_lines_of(
                self.template_spec(),
                self.palette_spec(mode),
                self.palette_spec(mode).len() > 0,
            ),
            r.width == template_width(self.template_spec()),
    {
        let rec = self.record();
        rec.ascii(mode)
    }
}

} // verus!
