//! Launcher settings: environment flags, finding the launcher's own Docker
//! app among Wolf's apps, and splitting its image reference.

use vstd::prelude::*;

use crate::model::{App, AppListResponse, Runner, app_image};
use crate::text::{
    ascii_lower, chars_eq, chars_of, concat, contains, contains_seq, ends_with, ends_with_seq,
    last_index_of, lower_ascii, owned, rfind, string_of_range,
};

verus! {

pub const SETTINGS_ENABLED_ENV: &'static str = "WOLF_UI_SETTINGS_ENABLED";

pub const AUTO_UPDATE_ENV: &'static str = "WOLF_UI_AUTOUPDATE";

/// A flag value that turns a setting on.
pub open spec fn truthy(value: Seq<char>) -> bool {
    let v = ascii_lower(value);
    v == "1"@ || v == "true"@ || v == "yes"@ || v == "on"@
}

/// The value of a boolean environment flag: `default` when the variable is
/// unset; otherwise on exactly for `1`, `true`, `yes` or `on` in any ASCII case.
pub fn env_flag(value: Option<&str>, default: bool) -> (r: bool)
    ensures
        value is None ==> r == default,
        value matches Some(v) ==> r == truthy(v@),
{
    match value {
        None => default,
        Some(v) => {
            let chars = chars_of(v);
            let lower = lower_ascii(&chars);
            let one = chars_of("1");
            let t = chars_of("true");
            let y = chars_of("yes");
            let on = chars_of("on");
            chars_eq(&lower, &one) || chars_eq(&lower, &t) || chars_eq(&lower, &y) || chars_eq(
                &lower,
                &on,
            )
        },
    }
}

/// The text searched for the launcher's name: title, id, container name and
/// image, separated by spaces.
pub open spec fn haystack(app: App, name: Seq<char>, image: Seq<char>) -> Seq<char> {
    app.title@ + " "@ + app.id@ + " "@ + name + " "@ + image
}

/// The app is the launcher itself: a Docker app whose title, id, container
/// name or image mentions `wolf-ui` or `wolf ui` in any ASCII case, or whose
/// image repository is named `wolf-ui`.
pub open spec fn wolf_ui_app(app: App) -> bool {
    match app.runner {
        Runner::Docker(d) => {
            let h = ascii_lower(haystack(app, d.name@, d.image@));
            let image = ascii_lower(d.image@);
            ||| contains_seq(h, "wolf-ui"@)
            ||| contains_seq(h, "wolf ui"@)
            ||| ends_with_seq(image, "/wolf-ui"@)
            ||| contains_seq(image, "/wolf-ui:"@)
        },
        Runner::Cmd(_) => false,
    }
}

pub fn is_wolf_ui_app(app: &App) -> (r: bool)
    ensures
        r == wolf_ui_app(*app),
{
    match &app.runner {
        Runner::Docker(d) => {
            let mut text = concat(app.title.as_str(), " ");
            text.append(app.id.as_str());
            text.append(" ");
            text.append(d.name.as_str());
            text.append(" ");
            text.append(d.image.as_str());
            let h = lower_ascii(&chars_of(text.as_str()));
            let image = lower_ascii(&chars_of(d.image.as_str()));
            let dash = chars_of("wolf-ui");
            let space = chars_of("wolf ui");
            let repo = chars_of("/wolf-ui");
            let tagged = chars_of("/wolf-ui:");
            contains(&h, &dash) || contains(&h, &space) || ends_with(&image, &repo) || contains(
                &image,
                &tagged,
            )
        },
        Runner::Cmd(_) => false,
    }
}

/// Where the tag starts: the last `:` when it comes after the last `/`.
pub open spec fn tag_colon(image: Seq<char>) -> Option<int> {
    match last_index_of(image, ':') {
        Some(t) => match last_index_of(image, '/') {
            Some(s) => if t > s {
                Some(t)
            } else {
                None
            },
            None => Some(t),
        },
        None => None,
    }
}

/// The tag of an image reference, `latest` when it has none. A `:` before
/// the last `/` belongs to a registry port, not a tag.
pub open spec fn version_of(image: Seq<char>) -> Seq<char> {
    match tag_colon(image) {
        Some(t) => image.subrange(t + 1, image.len() as int),
        None => "latest"@,
    }
}

/// The image reference without its tag.
pub open spec fn repository_of(image: Seq<char>) -> Seq<char> {
    match tag_colon(image) {
        Some(t) => image.subrange(0, t),
        None => image,
    }
}

fn tag_position(image: &Vec<char>) -> (r: Option<usize>)
    ensures
        r matches Some(t) ==> tag_colon(image@) == Some(t as int) && t < image@.len(),
        r is None ==> tag_colon(image@) is None,
{
    proof {
        crate::text::lemma_last_index_of(image@, ':');
    }
    match rfind(image, ':') {
        Some(t) => match rfind(image, '/') {
            Some(s) => if t > s {
                Some(t)
            } else {
                None
            },
            None => Some(t),
        },
        None => None,
    }
}

pub fn image_version(image: &str) -> (r: String)
    ensures
        r@ == version_of(image@),
{
    let chars = chars_of(image);
    let n: usize = chars.len();
    match tag_position(&chars) {
        Some(t) => string_of_range(&chars, t + 1, n),
        None => owned("latest"),
    }
}

pub fn image_repository(image: &str) -> (r: String)
    ensures
        r@ == repository_of(image@),
{
    let chars = chars_of(image);
    match tag_position(&chars) {
        Some(t) => string_of_range(&chars, 0, t),
        None => owned(image),
    }
}

/// Splitting loses nothing: a tagged reference is its repository, a colon and
/// its tag; an untagged one is its own repository.
pub proof fn lemma_image_split(image: Seq<char>)
    ensures
        tag_colon(image) is Some ==> repository_of(image) + seq![':'] + version_of(image) == image,
        tag_colon(image) is None ==> repository_of(image) == image,
{
    crate::text::lemma_last_index_of(image, ':');
    if let Some(t) = tag_colon(image) {
        assert(image.subrange(0, t) + seq![':'] + image.subrange(t + 1, image.len() as int) =~= image);
    }
}

/// How an app is described in the detection error: its title and its image,
/// or `process` for a process app.
pub open spec fn summary_of(app: App) -> Seq<char> {
    match app.runner {
        Runner::Docker(d) => app.title@ + " ("@ + d.image@ + ")"@,
        Runner::Cmd(_) => app.title@ + " (process)"@,
    }
}

pub fn app_summary(app: &App) -> (r: String)
    ensures
        r@ == summary_of(*app),
{
    match &app.runner {
        Runner::Docker(d) => {
            let mut s = concat(app.title.as_str(), " (");
            s.append(d.image.as_str());
            s.append(")");
            s
        },
        Runner::Cmd(_) => concat(app.title.as_str(), " (process)"),
    }
}

/// The summaries of the apps joined with `, `.
pub open spec fn summaries(apps: Seq<App>) -> Seq<char>
    decreases apps.len(),
{
    if apps.len() == 0 {
        Seq::empty()
    } else if apps.len() == 1 {
        summary_of(apps[0])
    } else {
        summaries(apps.drop_last()) + ", "@ + summary_of(apps.last())
    }
}

/// Why the launcher's own app could not be found.
pub open spec fn detection_error_of(apps: Seq<App>) -> Seq<char> {
    if apps.len() == 0 {
        "Update settings could not find the Wolf UI Docker app because Wolf returned no Moonlight apps."@
    } else {
        "Update settings could not find the Wolf UI Docker app. Moonlight apps returned: "@
            + summaries(apps) + "."@
    }
}

pub fn detection_error(apps: &[App]) -> (r: String)
    ensures
        r@ == detection_error_of(apps@),
{
    if apps.len() == 0 {
        return owned(
            "Update settings could not find the Wolf UI Docker app because Wolf returned no Moonlight apps.",
        );
    }
    let mut joined = String::new();
    let mut i: usize = 0;
    while i < apps.len()
        invariant
            i <= apps@.len(),
            apps@.len() > 0,
            joined@ == summaries(apps@.take(i as int)),
        decreases apps@.len() - i,
    {
        proof {
            assert(apps@.take(i + 1).drop_last() =~= apps@.take(i as int));
            assert(apps@.take(i + 1).last() == apps@[i as int]);
            if i == 0 {
                assert(apps@.take(1)[0] == apps@[0]);
            }
        }
        if i > 0 {
            joined.append(", ");
        }
        let summary = app_summary(&apps[i]);
        joined.append(summary.as_str());
        i = i + 1;
    }
    assert(apps@.take(apps@.len() as int) =~= apps@);
    let mut r = owned("Update settings could not find the Wolf UI Docker app. Moonlight apps returned: ");
    r.append(joined.as_str());
    r.append(".");
    r
}

/// The first app that is the launcher.
pub open spec fn first_wolf_ui(apps: Seq<App>) -> Option<int> {
    if exists|i: int| 0 <= i < apps.len() && wolf_ui_app(apps[i]) {
        Some(
            choose|i: int|
                0 <= i < apps.len() && wolf_ui_app(apps[i]) && forall|k: int|
                    0 <= k < i ==> !wolf_ui_app(apps[k]),
        )
    } else {
        None
    }
}

/// The launcher's Docker image among Wolf's apps: an error when the list is
/// not a success, the detection error when no app is the launcher, and
/// otherwise the image of the first app that is.
pub fn wolf_ui_image(response: &AppListResponse) -> (r: Result<String, String>)
    ensures
        !response.success ==> (r matches Err(e) && e@
            == "Wolf returned an unsuccessful apps response. Try again once the service is ready."@),
        response.success && first_wolf_ui(response.apps@) is None ==> (r matches Err(e) && e@
            == detection_error_of(response.apps@)),
        response.success && first_wolf_ui(response.apps@) is Some ==> r == Ok::<String, String>(
            app_image(response.apps@[first_wolf_ui(response.apps@)->0])->0,
        ),
{
    if !response.success {
        return Err(
            owned(
                "Wolf returned an unsuccessful apps response. Try again once the service is ready.",
            ),
        );
    }
    let apps = &response.apps;
    let mut i: usize = 0;
    while i < apps.len()
        invariant
            i <= apps@.len(),
            apps@ == response.apps@,
            response.success,
            forall|k: int| 0 <= k < i ==> !wolf_ui_app(apps@[k]),
        decreases apps@.len() - i,
    {
        if is_wolf_ui_app(&apps[i]) {
            proof {
                let w = choose|j: int|
                    0 <= j < apps@.len() && wolf_ui_app(apps@[j]) && forall|k: int|
                        0 <= k < j ==> !wolf_ui_app(apps@[k]);
                if w < i {
                    assert(false);
                }
                if w > i {
                    assert(!wolf_ui_app(apps@[i as int]));
                }
            }
            match &apps[i].runner {
                Runner::Docker(d) => {
                    return Ok(d.image.clone());
                },
                Runner::Cmd(_) => {
                    return Err(owned("The Wolf UI launcher app is not backed by a Docker image."));
                },
            }
        }
        i = i + 1;
    }
    Err(detection_error(apps.as_slice()))
}

/// What the settings screen shows about the launcher's image.
#[derive(Clone, Debug, PartialEq, Eq)]
pub struct WolfUiImageState {
    pub source: String,
    pub repository: String,
    pub version: String,
    pub installed: bool,
}

impl WolfUiImageState {
    pub fn new(image: String, installed: bool) -> (r: Self)
        ensures
            r.source == image,
            r.repository@ == repository_of(image@),
            r.version@ == version_of(image@),
            r.installed == installed,
    {
        WolfUiImageState {
            version: image_version(image.as_str()),
            repository: image_repository(image.as_str()),
            source: image,
            installed,
        }
    }
}

/// The outcome of an image update once the pull finished: an error when the
/// image is still missing, else whether anything was downloaded.
pub fn update_outcome(downloaded: bool, installed: bool) -> (r: Result<bool, String>)
    ensures
        installed ==> r == Ok::<bool, String>(downloaded),
        !installed ==> (r matches Err(e) && e@
            == "Wolf reported pull success, but the configured image is still missing."@),
{
    if !installed {
        return Err(owned("Wolf reported pull success, but the configured image is still missing."));
    }
    Ok(downloaded)
}

} // verus!
