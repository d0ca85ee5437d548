use owo_colors::{AnsiColors, DynColors};
use punfetch::bar::{DiskUsage, PercentBar, DEFAULT_BAR_WIDTH};
use punfetch::info::{ColorBar, HostInfo, SystemInfo, UserInfo};
use punfetch::printer::{Info, Printer};
use sysinfo::{
    CpuExt, CpuRefreshKind, DiskExt, ProcessRefreshKind, RefreshKind, System, SystemExt,
};

static COLORS: [DynColors; 3] = [
    DynColors::Ansi(AnsiColors::Green),
    DynColors::Ansi(AnsiColors::Yellow),
    DynColors::Ansi(AnsiColors::Red),
];

fn sys() -> System {
    System::new_with_specifics(
        RefreshKind::new()
            .with_cpu(CpuRefreshKind::new())
            .with_users_list()
            .with_processes(ProcessRefreshKind::new().with_user())
            .with_disks_list()
            .with_memory(),
    )
}

fn print_lines(lines: Vec<String>) {
    assert!(!lines.is_empty());
    for line in lines {
        println!("{line}");
    }
}

/// The text of `s` without its terminal escape sequences.
fn visible(s: &str) -> String {
    let mut out = String::new();
    let mut in_escape = false;
    for c in s.chars() {
        if in_escape {
            if c == 'm' {
                in_escape = false;
            }
        } else if c == '\u{1b}' {
            in_escape = true;
        } else {
            out.push(c);
        }
    }
    out
}

fn bar(title: &str, total: u64, items: &[(&str, u64, u64)], width: usize) -> PercentBar {
    PercentBar {
        title: title.to_string(),
        total,
        items: items.iter().map(|(n, u, p)| (n.to_string(), *u, *p)).collect(),
        colors: COLORS.to_vec(),
        width,
    }
}

#[test]
fn host_info() {
    let sys = sys();
    let info = HostInfo::new(sys.name(), sys.distribution_id(), sys.kernel_version(), None);
    print_lines(info.render(DynColors::Ansi(AnsiColors::Default)));
}

#[test]
fn user_info() {
    let sys = sys();
    let info = UserInfo::new(None, None, sys.host_name());
    print_lines(info.render(DynColors::Ansi(AnsiColors::Default)));
}

#[test]
fn sys_info() {
    let sys = sys();
    let brands: Vec<String> = sys.cpus().iter().map(|c| c.brand().to_string()).collect();
    let info = SystemInfo::new(
        sys.uptime(),
        brands,
        format!("~{:.2} %", sys.load_average().fifteen),
        sys.used_memory(),
        sys.total_memory(),
    );
    print_lines(info.render(DynColors::Ansi(AnsiColors::Default)));
}

#[test]
fn disk_info() {
    let sys = sys();
    let disks: Vec<DiskUsage> = sys
        .disks()
        .iter()
        .map(|d| DiskUsage {
            name: d.name().to_string_lossy().to_string(),
            mount_point: d.mount_point().to_string_lossy().to_string(),
            total: d.total_space(),
            available: d.available_space(),
        })
        .collect();
    print_lines(PercentBar::from_disks(&disks).render(DynColors::Ansi(AnsiColors::Default)));
}

#[test]
fn generic_percent_bar() {
    print_lines(
        bar(
            "Generic",
            100,
            &[("foo", 50, 1000), ("bar", 25, 250), ("baz", 13, 130)],
            DEFAULT_BAR_WIDTH,
        )
        .render(DynColors::Ansi(AnsiColors::Default)),
    );

    print_lines(
        bar(
            "Full   ",
            300,
            &[("large", 100, 1000), ("medium", 100, 1000), ("small", 100, 1000)],
            DEFAULT_BAR_WIDTH,
        )
        .render(DynColors::Ansi(AnsiColors::Default)),
    );
}

#[test]
fn generic_colors() {
    print_lines(ColorBar::default().render(DynColors::Ansi(AnsiColors::Default)));

    let mut colors = COLORS.to_vec();
    colors.extend(COLORS);
    print_lines(ColorBar(colors).render(DynColors::Ansi(AnsiColors::Default)));
}

#[test]
fn bar_allocation_rounds_and_fills_width() {
    let b = bar("Generic", 100, &[("foo", 50, 1000), ("bar", 25, 250), ("baz", 13, 130)], 30);
    assert_eq!(b.allocate(), (vec![15, 8, 4], 3));
    let full = bar("Full", 300, &[("a", 100, 1000), ("b", 100, 1000), ("c", 100, 1000)], 30);
    assert_eq!(full.allocate(), (vec![10, 10, 10], 0));
    let empty = bar("None", 0, &[], 30);
    assert_eq!(empty.allocate(), (vec![], 30));
}

#[test]
fn small_items_over_one_percent_stay_visible() {
    let b = bar("Disks", 1000, &[("tiny", 15, 500), ("idle", 5, 5), ("big", 900, 900)], 30);
    let (widths, filler) = b.allocate();
    assert_eq!(widths, vec![1, 0, 27]);
    assert_eq!(filler, 2);
}

#[test]
fn forced_cell_follows_share_of_total_not_own_use() {
    let b = bar("Disks", 100000, &[("full but small", 500, 1000), ("tiny", 1001, 10)], 30);
    assert_eq!(b.allocate(), (vec![0, 1], 29));
}

#[test]
fn overfull_requests_are_cut_to_the_bar() {
    let b = bar("X", 4, &[("a", 1, 250), ("b", 1, 250), ("c", 1, 250), ("d", 1, 250)], 2);
    assert_eq!(b.allocate(), (vec![1, 1, 0, 0], 0));
}

#[test]
fn bar_lines_group_legend_two_per_line() {
    let b = bar("T", 100, &[("a", 50, 130), ("b", 25, 1000), ("c", 1, 5)], 10);
    let lines = b.render(DynColors::Ansi(AnsiColors::Red));
    assert_eq!(lines.len(), 3);
    assert_eq!(visible(&lines[0]), format!("T: {}", " ".repeat(10)));
    assert_eq!(visible(&lines[1]), "   \u{25cf} a (13.0 %)  \u{25cf} b (100.0 %) ");
    assert_eq!(visible(&lines[2]), "   \u{25cf} c (0.5 %) ");
    assert!(lines[1].contains("\u{1b}[32m"));
    assert!(lines[1].contains("\u{1b}[33m"));
}

#[test]
fn disks_are_deduplicated_by_name() {
    let disk = |name: &str, mount: &str, total: u64, available: u64| DiskUsage {
        name: name.to_string(),
        mount_point: mount.to_string(),
        total,
        available,
    };
    let disks = vec![
        disk("sda", "/", 1000, 250),
        disk("sda", "/home", 1000, 250),
        disk("sdb", "/data", 3000, 3000),
        disk("sdc", "/odd", 10, 20),
        disk("sdd", "/round", 3, 1),
    ];
    let b = PercentBar::from_disks(&disks);
    assert_eq!(b.title, "Disks");
    assert_eq!(b.total, 4013);
    assert_eq!(
        b.items,
        vec![
            ("/".to_string(), 750, 750),
            ("/data".to_string(), 0, 0),
            ("/odd".to_string(), 0, 0),
            ("/round".to_string(), 2, 667)
        ]
    );
    assert_eq!(b.width, DEFAULT_BAR_WIDTH);
    assert_eq!(b.colors.len(), 7);
}

#[test]
fn user_info_falls_back_and_rules_the_line() {
    let u = UserInfo::new(None, Some("ann".to_string()), None);
    assert_eq!(u.user, "ann");
    assert_eq!(u.host, "localhost");
    let u = UserInfo::new(None, None, Some("box".to_string()));
    assert_eq!(u.user, "unknown");
    let lines = u.render(DynColors::Ansi(AnsiColors::Blue));
    assert_eq!(visible(&lines[0]), "unknown ~ box");
    assert_eq!(visible(&lines[1]), "-".repeat(13));
}

#[test]
fn host_info_omits_absent_facts() {
    let h = HostInfo::new(None, "arch".to_string(), None, Some("xterm".to_string()));
    let lines = h.render(DynColors::Ansi(AnsiColors::Default));
    assert_eq!(lines.len(), 2);
    assert_eq!(visible(&lines[0]), "Distro: arch");
    assert_eq!(visible(&lines[1]), "Terminal: xterm");
    let h = HostInfo::new(Some("Arch Linux".to_string()), "arch".to_string(), Some("6.1".to_string()), None);
    let lines = h.render(DynColors::Ansi(AnsiColors::Default));
    assert_eq!(visible(&lines[0]), "Distro: Arch Linux");
    assert_eq!(visible(&lines[1]), "Kernel: 6.1");
}

#[test]
fn system_info_texts() {
    let s = SystemInfo::new(59, vec![], "~0.50 %".to_string(), 0, 0);
    assert_eq!(s.last_boot, "less than one minute ago");
    assert_eq!(s.cpu, None);
    assert_eq!(s.memory, None);
    assert_eq!(s.render(DynColors::Ansi(AnsiColors::Default)).len(), 2);
    let s = SystemInfo::new(3659, vec!["CPU A".to_string(), "CPU B".to_string()], "~1.00 %".to_string(), 2048, 8192);
    assert_eq!(s.last_boot, "1h ago");
    assert_eq!(s.cpu, Some("CPU A".to_string()));
    assert_eq!(s.memory, Some("2.00 KiB / 8.00 KiB (25.0 %)".to_string()));
    let lines = s.render(DynColors::Ansi(AnsiColors::Default));
    assert_eq!(lines.len(), 4);
    assert_eq!(visible(&lines[3]), "Memory: 2.00 KiB / 8.00 KiB (25.0 %)");
    let s = SystemInfo::new(120, vec![], String::new(), 1, 3);
    assert_eq!(s.last_boot, "2m ago");
    assert_eq!(s.memory, Some("1 B / 3 B (33.3 %)".to_string()));
    let s = SystemInfo::new(120, vec![], String::new(), 1999, 10000);
    assert_eq!(s.memory, Some("1.95 KiB / 9.77 KiB (20.0 %)".to_string()));
    let s = SystemInfo::new(120, vec![], String::new(), 2, 3);
    assert_eq!(s.memory, Some("2 B / 3 B (66.7 %)".to_string()));
}

#[test]
fn color_bar_swatches() {
    let lines = ColorBar::default_bar().render(DynColors::Ansi(AnsiColors::Red));
    assert_eq!(lines.len(), 2);
    assert_eq!(lines[0], "");
    assert_eq!(visible(&lines[1]), " ".repeat(24));
    assert!(lines[1].starts_with("\u{1b}[40m"));
}

#[test]
fn printer_uses_distro_color_for_text() {
    let mut p = Printer::new(Some(false));
    p.with_distro(punfetch::distros::Distro::DEBIAN);
    p.with_info(Info::Host(HostInfo::new(None, "debian".to_string(), None, None)));
    assert_eq!(p.main_color(), DynColors::Ansi(AnsiColors::Red));
    let lines = p.info_lines();
    assert!(lines[0].contains("\u{1b}[31m"));
}
