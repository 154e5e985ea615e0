use vstd::prelude::*;
use vstd::string::*;

use crate::catalog::{backup_rows, backup_rows_text, recent_backups, recent_view, BackupFile};
use crate::docker::{status_image, status_image_text, ContainerInfo};
use crate::text::{datetime_cell, datetime_cell_text, decimal, decimal_text};
use crate::throttle::{is_restart_allowed, restart_allowed};
use crate::valve::ValveInformation;

verus! {

/// What `str::replace` makes of `s` when every match of `from` is replaced by `to`.
pub uninterp spec fn replaced(s: Seq<char>, from: Seq<char>, to: Seq<char>) -> Seq<char>;

/// Relies on `str::replace`: every non-overlapping match of `from`, from
/// left to right, replaced by `to`; the result depends on the three texts alone.
#[verifier::external_body]
fn replace_all(s: &str, from: &str, to: &str) -> (r: String)
    ensures
        r@ == replaced(s@, from@, to@),
{
    s.replace(from, to)
}

/// The text of placeholder/value pairs.
pub open spec fn pairs_view(ps: Seq<(String, String)>) -> Seq<(Seq<char>, Seq<char>)> {
    ps.map_values(|p: (String, String)| (p.0@, p.1@))
}

/// The template with each placeholder replaced in turn by its value.
pub open spec fn rendered(t: Seq<char>, ps: Seq<(Seq<char>, Seq<char>)>) -> Seq<char>
    decreases ps.len(),
{
    if ps.len() == 0 {
        t
    } else {
        replaced(rendered(t, ps.drop_last()), ps.last().0, ps.last().1)
    }
}

/// Fills a page template: each placeholder is replaced by its value, pair
/// after pair.
pub fn render_template(template_str: &str, replace_map: &Vec<(String, String)>) -> (r: String)
    ensures
        r@ == rendered(template_str@, pairs_view(replace_map@)),
{
    let mut out = String::new();
    out.append(template_str);
    let n = replace_map.len();
    let mut i: usize = 0;
    while i < n
        invariant
            n == replace_map@.len(),
            i <= n,
            out@ == rendered(template_str@, pairs_view(replace_map@.subrange(0, i as int))),
        decreases n - i,
    {
        assert(pairs_view(replace_map@.subrange(0, i as int + 1)).drop_last() =~= pairs_view(
            replace_map@.subrange(0, i as int),
        ));
        let (from, to) = &replace_map[i];
        out = replace_all(out.as_str(), from.as_str(), to.as_str());
        i += 1;
    }
    assert(replace_map@.subrange(0, n as int) =~= replace_map@);
    out
}

/// The version shown on the page: `version-commit`.
pub fn version_with_commit(version: &str, commit: &str) -> (r: String)
    ensures
        r@ == version@ + "-"@ + commit@,
{
    let mut out = String::new();
    out.append(version);
    out.append("-");
    out.append(commit);
    out
}

/// The restart control: the button when a restart is allowed, else a
/// request to wait out the cooldown.
pub open spec fn restart_control_text(last_restart: Option<i64>, cooldown: u32, now: i64) -> Seq<
    char,
> {
    if restart_allowed(last_restart, cooldown, now) {
        "<a id=\"restart-btn\" href=\"/restart\" role=\"button\" style=\"height: 64px;\">Restart</a>"@
    } else {
        "<small style=\"line-height: 64px;\">Last restart was less than "@ + decimal(
            cooldown as nat,
        ) + " seconds ago, please wait...</small>"@
    }
}

pub fn restart_button(last_restart: Option<i64>, cooldown_seconds: u32, now: i64) -> (r: String)
    ensures
        r@ == restart_control_text(last_restart, cooldown_seconds, now),
{
    let mut out = String::new();
    if is_restart_allowed(last_restart, cooldown_seconds, now) {
        out.append(
            "<a id=\"restart-btn\" href=\"/restart\" role=\"button\" style=\"height: 64px;\">Restart</a>",
        );
    } else {
        let secs = decimal_text(cooldown_seconds as u64);
        out.append("<small style=\"line-height: 64px;\">Last restart was less than ");
        out.append(secs.as_str());
        out.append(" seconds ago, please wait...</small>");
        assert(out@ =~= restart_control_text(last_restart, cooldown_seconds, now));
    }
    out
}

/// The values of one dashboard page, each already in display form.
pub struct RenderModel {
    pub version: String,
    pub container_status: String,
    pub container_uptime: String,
    pub server_version: String,
    pub player_count: String,
    pub last_restart_time: String,
    pub server_logs: String,
    pub backups: String,
    pub restart_btn: String,
    pub container_status_img: String,
    pub render_time: String,
}

/// The shown text of an optional value.
pub open spec fn or_na(o: Option<Seq<char>>) -> Seq<char> {
    match o {
        Some(t) => t,
        None => "n/a"@,
    }
}

fn text_or_na(o: Option<&String>) -> (r: String)
    ensures
        r@ == or_na(
            match o {
                Some(s) => Some(s@),
                None => None,
            },
        ),
{
    match o {
        Some(s) => s.clone(),
        None => {
            let mut t = String::new();
            t.append("n/a");
            t
        },
    }
}

/// Assembles the page from the providers' reads. A provider that failed
/// (`None`) shows "n/a" in its own section only; the other sections keep
/// their data.
pub fn build_render_model(
    version: String,
    container: &Option<ContainerInfo>,
    valve: &Option<ValveInformation>,
    last_restart: Option<i64>,
    cooldown_seconds: u32,
    now: i64,
    backups: Vec<BackupFile>,
    render_ms: u64,
) -> (r: RenderModel)
    ensures
        r.version == version,
        r.container_status@ == or_na(
            match *container {
                Some(c) => Some(c.state@),
                None => None,
            },
        ),
        r.container_uptime@ == or_na(
            match *container {
                Some(c) => Some(c.uptime@),
                None => None,
            },
        ),
        r.server_logs@ == or_na(
            match *container {
                Some(c) => Some(c.logs@),
                None => None,
            },
        ),
        r.container_status_img@ == status_image_text(*container),
        r.server_version@ == or_na(
            match *valve {
                Some(v) => Some(v.version@),
                None => None,
            },
        ),
        r.player_count@ == or_na(
            match *valve {
                Some(v) => Some(decimal(v.player_count as nat)),
                None => None,
            },
        ),
        r.last_restart_time@ == or_na(
            match last_restart {
                Some(t) => Some(datetime_cell(t)),
                None => None,
            },
        ),
        r.backups@ == backup_rows_text(recent_view(backups@)),
        r.restart_btn@ == restart_control_text(last_restart, cooldown_seconds, now),
        r.render_time@ == decimal(render_ms as nat),
{
    let container_status = text_or_na(
        match container {
            Some(c) => Some(&c.state),
            None => None,
        },
    );
    let container_uptime = text_or_na(
        match container {
            Some(c) => Some(&c.uptime),
            None => None,
        },
    );
    let server_logs = text_or_na(
        match container {
            Some(c) => Some(&c.logs),
            None => None,
        },
    );
    let server_version = text_or_na(
        match valve {
            Some(v) => Some(&v.version),
            None => None,
        },
    );
    let player_count = match valve {
        Some(v) => decimal_text(v.player_count as u64),
        None => text_or_na(None),
    };
    let last_restart_time = match last_restart {
        Some(t) => datetime_cell_text(t),
        None => text_or_na(None),
    };
    let recent = recent_backups(backups);
    RenderModel {
        version,
        container_status,
        container_uptime,
        server_version,
        player_count,
        last_restart_time,
        server_logs,
        backups: backup_rows(&recent),
        restart_btn: restart_button(last_restart, cooldown_seconds, now),
        container_status_img: status_image(container),
        render_time: decimal_text(render_ms),
    }
}

/// The placeholders of the page template, each with its value.
pub open spec fn model_entries(m: RenderModel) -> Seq<(Seq<char>, Seq<char>)> {
    seq![
        ("%version%"@, m.version@),
        ("%container_status%"@, m.container_status@),
        ("%container_uptime%"@, m.container_uptime@),
        ("%server_version%"@, m.server_version@),
        ("%player_count%"@, m.player_count@),
        ("%last_restart_time%"@, m.last_restart_time@),
        ("%server_logs%"@, m.server_logs@),
        ("%backups%"@, m.backups@),
        ("%restart_btn%"@, m.restart_btn@),
        ("%container_status_img%"@, m.container_status_img@),
        ("%render_time%"@, m.render_time@),
    ]
}

fn entry(token: &str, value: &String) -> (r: (String, String))
    ensures
        r.0@ == token@,
        r.1@ == value@,
{
    let mut t = String::new();
    t.append(token);
    (t, value.clone())
}

impl RenderModel {
    /// The placeholder/value pairs of this page.
    pub fn replacements(&self) -> (r: Vec<(String, String)>)
        ensures
            pairs_view(r@) == model_entries(*self),
    {
        let mut v: Vec<(String, String)> = Vec::new();
        v.push(entry("%version%", &self.version));
        v.push(entry("%container_status%", &self.container_status));
        v.push(entry("%container_uptime%", &self.container_uptime));
        v.push(entry("%server_version%", &self.server_version));
        v.push(entry("%player_count%", &self.player_count));
        v.push(entry("%last_restart_time%", &self.last_restart_time));
        v.push(entry("%server_logs%", &self.server_logs));
        v.push(entry("%backups%", &self.backups));
        v.push(entry("%restart_btn%", &self.restart_btn));
        v.push(entry("%container_status_img%", &self.container_status_img));
        v.push(entry("%render_time%", &self.render_time));
        assert(pairs_view(v@) =~= model_entries(*self));
        v
    }

    /// The page: the template with this page's values filled in.
    pub fn render(&self, template_str: &str) -> (r: String)
        ensures
            r@ == rendered(template_str@, model_entries(*self)),
    {
        let pairs = self.replacements();
        render_template(template_str, &pairs)
    }
}

} // verus!
