//! What asking finds on a host, and that it is what the facts are defined
//! to be.
//!
//! A host is taken for what it replies to each request: a text, or nothing.
//! On such a host the questions lead to an answer, `outcome`. The laws below
//! relate it to the meaning of each fact, and say what is found where the
//! host replies nothing.

use vstd::prelude::*;
use crate::desktop::{
    desktop_environment,
    setting,
    system_font,
    trimmed,
    window_manager,
    window_manager_theme,
};
use crate::disk::{disk_usage, DiskUsageView, DiskView};
use crate::network::local_ip_info;
use crate::packages::{package_count, package_manager_info};
use crate::hardware::{battery_info, gpu_info, no_battery, no_gpu, resolution};
use crate::inquiry::{
    depth,
    first,
    next,
    request_of,
    session_name,
    Fact,
    Probe,
    QuestionView,
    RequestView,
    StepView,
};
use crate::reply::{or_unknown, unknown};
use crate::system::{linux, linux_platform, os_info, os_release_name};
use crate::terminal::{first_profile, terminal, terminal_font};

verus! {

/// The answer that the questions from `question` on lead to, on a host that
/// replies `host(r)` to the request `r`.
pub open spec fn outcome(
    question: QuestionView,
    host: spec_fn(RequestView) -> Option<Seq<char>>,
) -> Seq<char>
    decreases depth(question),
{
    match next(question, host(request_of(question))) {
        StepView::Done(answer) => answer,
        StepView::Ask(following) => if depth(following) < depth(question) {
            outcome(following, host)
        } else {
            unknown()
        },
    }
}

/// What the host replies where it is asked for the font of the first
/// profile of its terminal; nothing where it lists no profile.
pub open spec fn first_profile_font(host: spec_fn(RequestView) -> Option<Seq<char>>) -> Option<
    Seq<char>,
> {
    match first_profile(host(request_of(QuestionView::Profiles))) {
        Some(profile) => host(request_of(QuestionView::ProfileFont(profile))),
        None => None,
    }
}

/// The fact, as it is defined from what the host replies to the requests
/// that bear on it.
pub open spec fn finding(probe: Probe, host: spec_fn(RequestView) -> Option<Seq<char>>) -> Seq<
    char,
> {
    match probe {
        Probe::Os => match host(RequestView::Fact(Fact::Platform)) {
            Some(platform) => os_info(
                platform,
                host(RequestView::Fact(Fact::OsName)),
                host(request_of(QuestionView::OsRelease)),
                host(RequestView::Fact(Fact::OsVersion)),
            ),
            None => unknown(),
        },
        Probe::Kernel => or_unknown(host(RequestView::Fact(Fact::KernelVersion))),
        Probe::Hostname => or_unknown(host(RequestView::Fact(Fact::Hostname))),
        Probe::Locale => or_unknown(host(request_of(QuestionView::Locale))),
        Probe::Battery => battery_info(host(request_of(QuestionView::Battery))),
        Probe::Gpu => gpu_info(host(request_of(QuestionView::Gpu))),
        Probe::Resolution => resolution(
            host(request_of(QuestionView::Modes)),
            host(request_of(QuestionView::Display)),
        ),
        Probe::DesktopEnvironment => desktop_environment(host(session_name())),
        Probe::WindowManager => window_manager(
            host(request_of(QuestionView::SessionType)),
            host(request_of(QuestionView::ManagerName)),
        ),
        Probe::WindowManagerTheme => window_manager_theme(
            host(session_name()),
            host(request_of(QuestionView::GnomeTheme)),
            host(request_of(QuestionView::KdeTheme)),
        ),
        Probe::GtkTheme => setting(host(request_of(QuestionView::GtkTheme))),
        Probe::IconTheme => setting(host(request_of(QuestionView::IconTheme))),
        Probe::Terminal => terminal(
            host(request_of(QuestionView::Terminal)),
            host(request_of(QuestionView::Colorterm)),
            host(request_of(QuestionView::Term)),
        ),
        Probe::TerminalFont => terminal_font(
            host(request_of(QuestionView::MonospaceFont)),
            host(request_of(QuestionView::Profiles)),
            first_profile_font(host),
        ),
        Probe::SystemFont => system_font(
            host(session_name()),
            host(request_of(QuestionView::GnomeFont)),
            host(request_of(QuestionView::KdeFont)),
        ),
    }
}

/// What stands for a fact of which the host says nothing.
pub open spec fn sentinel(probe: Probe) -> Seq<char> {
    match probe {
        Probe::Battery => no_battery(),
        Probe::Gpu => no_gpu(),
        _ => unknown(),
    }
}

/// The host replies nothing to any request.
pub open spec fn is_silent(host: spec_fn(RequestView) -> Option<Seq<char>>) -> bool {
    forall|r: RequestView| (#[trigger] host(r)) is None
}

/// Every question that a reply leads to can be followed by fewer questions
/// than the one before it: the search for a fact ends, after three requests
/// at most.
pub proof fn lemma_search_ends(question: QuestionView, reply: Option<Seq<char>>)
    ensures
        depth(question) <= 2,
        next(question, reply) matches StepView::Ask(following) ==> depth(following) < depth(
            question,
        ),
{
}

/// Asking question by question finds each fact as it is defined.
pub proof fn lemma_outcome_is_finding(
    probe: Probe,
    host: spec_fn(RequestView) -> Option<Seq<char>>,
)
    ensures
        outcome(first(probe), host) == finding(probe, host),
{
    reveal_with_fuel(outcome, 4);
}

/// On a host that replies nothing, each fact is found to be its sentinel.
pub proof fn lemma_silent_host(probe: Probe, host: spec_fn(RequestView) -> Option<Seq<char>>)
    requires
        is_silent(host),
    ensures
        outcome(first(probe), host) == sentinel(probe),
{
    reveal_with_fuel(outcome, 4);
}

/// Each fact is its sentinel where the replies that it is made of are
/// missing, whatever the replies are that it is then not made of; and of no
/// disks and of no counts, nothing is listed.
pub proof fn lemma_missing_replies(any: Option<Seq<char>>, other: Option<Seq<char>>)
    ensures
        or_unknown(None) == unknown(),
        os_release_name(None) == linux(),
        battery_info(None) == no_battery(),
        gpu_info(None) == no_gpu(),
        resolution(None, None) == unknown(),
        desktop_environment(None) == unknown(),
        window_manager(None, any) == unknown(),
        window_manager_theme(None, any, other) == unknown(),
        system_font(None, any, other) == unknown(),
        setting(None) == unknown(),
        trimmed(None) == unknown(),
        terminal(None, None, None) == unknown(),
        terminal_font(None, None, any) == unknown(),
        local_ip_info(None) == unknown(),
        package_count(None) is None,
        package_manager_info(Seq::empty()) == Seq::<(Seq<char>, u64)>::empty(),
        disk_usage(Seq::<DiskView>::empty()) == Seq::<DiskUsageView>::empty(),
{
    reveal_with_fuel(crate::packages::installed, 8);
}

/// On a Linux host that gives neither its name nor the file of its release,
/// the operating system is called "Linux"; on another platform, a version
/// that cannot be had is written "Unknown" after the platform.
pub proof fn lemma_os_sentinels(platform: Seq<char>, version: Option<Seq<char>>)
    ensures
        os_info(linux_platform(), None, None, version) == linux(),
        platform != linux_platform() ==> os_info(platform, None, None, None) == platform + " "@
            + unknown(),
{
}

} // verus!
