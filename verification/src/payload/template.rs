//! Payload templates: registering them with `handlebars`, and the data they are rendered with.
use vstd::prelude::*;

use crate::config::model::PayloadConfig;
use crate::device::context::DeviceContext;
use crate::error::{MerError, MerErrorView};
use crate::payload::clock::{rfc3339_text, Timestamp};
use crate::text::{concat2, concat3, owned};

verus! {

/// A `handlebars` registry; its templates and helpers are opaque here.
#[verifier::external_type_specification]
#[verifier::external_body]
pub struct ExHandlebars<'reg>(handlebars::Handlebars<'reg>);

/// The text of the error `handlebars` reports when compiling `template` under
/// `name` fails, or `None` when it compiles (with the registry's compile settings
/// left at their defaults, as this crate leaves them).
pub uninterp spec fn template_compile_error(name: Seq<char>, template: Seq<char>) -> Option<Seq<char>>;

/// The names under which a `handlebars` registry holds templates.
pub uninterp spec fn registered_template_names(hbs: handlebars::Handlebars<'static>) -> Set<
    Seq<char>,
>;

/// Compiles `template` and registers it under `name`
/// (`Handlebars::register_template_string`), giving the error's text on failure.
/// A template that compiles is added under `name`, replacing one of that name;
/// one that does not adds no name. Nothing is stated of the compiled templates
/// themselves.
#[verifier::external_body]
fn hbs_register(hbs: &mut handlebars::Handlebars<'static>, name: &str, template: &str) -> (res:
    Result<(), String>)
    ensures
        match res {
            Ok(()) => {
                &&& template_compile_error(name@, template@) is None
                &&& registered_template_names(*final(hbs)) == registered_template_names(
                    *old(hbs),
                ).insert(name@)
            },
            Err(m) => {
                &&& template_compile_error(name@, template@) == Some(m@)
                &&& registered_template_names(*final(hbs)) == registered_template_names(
                    *old(hbs),
                )
            },
        },
{
    match hbs.register_template_string(name, template) {
        Ok(()) => Ok(()),
        Err(e) => Err(e.to_string()),
    }
}

/// The data a payload template is rendered with.
#[derive(Debug, Clone)]
pub struct TemplateContext {
    pub device_id: String,
    pub device_index: usize,
    pub seq: usize,
    /// The simulated timestamp, in RFC 3339.
    pub ts: String,
}

/// The data a message of `device` with sequence number `seq`, stamped `ts`, is
/// rendered with.
pub fn template_context(device: &DeviceContext, seq: usize, ts: Timestamp) -> (res: TemplateContext)
    requires
        ts.valid(),
    ensures
        res.device_id@ == device.device_id@,
        res.device_index == device.index,
        res.seq == seq,
        res.ts@ == rfc3339_text(ts.secs, ts.nanos),
{
    TemplateContext {
        device_id: owned(device.device_id.as_str()),
        device_index: device.index,
        seq,
        ts: ts.to_rfc3339(),
    }
}

/// A value a template can read: text or a whole number.
#[derive(Debug, Clone)]
pub enum TemplateValue {
    Text(String),
    Number(usize),
}

/// The mathematical content of a `TemplateValue`.
pub enum TemplateValueView {
    Text(Seq<char>),
    Number(nat),
}

impl View for TemplateValue {
    type V = TemplateValueView;

    open spec fn view(&self) -> TemplateValueView {
        match self {
            TemplateValue::Text(s) => TemplateValueView::Text(s@),
            TemplateValue::Number(n) => TemplateValueView::Number(*n as nat),
        }
    }
}

/// One variable a template sees: `{{key}}` when `field` is `None`, else
/// `{{key.field}}`.
#[derive(Debug, Clone)]
pub struct TemplateEntry {
    pub key: String,
    pub field: Option<String>,
    pub value: TemplateValue,
}

/// The mathematical content of a `TemplateEntry`: key, field and value.
pub struct TemplateEntryView {
    pub key: Seq<char>,
    pub field: Option<Seq<char>>,
    pub value: TemplateValueView,
}

impl View for TemplateEntry {
    type V = TemplateEntryView;

    open spec fn view(&self) -> TemplateEntryView {
        TemplateEntryView {
            key: self.key@,
            field: match self.field {
                Some(f) => Some(f@),
                None => None,
            },
            value: self.value@,
        }
    }
}

/// The variables every payload template is rendered with, in order:
/// `device_id`, `device.id`, `device.index`, `seq` and `ts`.
pub open spec fn template_layout(id: Seq<char>, index: nat, seq: nat, ts: Seq<char>) -> Seq<
    TemplateEntryView,
> {
    seq![
        TemplateEntryView { key: "device_id"@, field: None, value: TemplateValueView::Text(id) },
        TemplateEntryView { key: "device"@, field: Some("id"@), value: TemplateValueView::Text(id) },
        TemplateEntryView {
            key: "device"@,
            field: Some("index"@),
            value: TemplateValueView::Number(index),
        },
        TemplateEntryView { key: "seq"@, field: None, value: TemplateValueView::Number(seq) },
        TemplateEntryView { key: "ts"@, field: None, value: TemplateValueView::Text(ts) },
    ]
}

fn entry(key: &str, field: Option<&str>, value: TemplateValue) -> (res: TemplateEntry)
    ensures
        res@.key == key@,
        res@.field == (match field {
            Some(f) => Some(f@),
            None => None::<Seq<char>>,
        }),
        res@.value == value@,
{
    let field = match field {
        Some(f) => Some(owned(f)),
        None => None,
    };
    TemplateEntry { key: owned(key), field, value }
}

/// The variables a template is rendered with for the message `ctx` describes,
/// as `template_layout` lists them.
pub fn template_data(ctx: &TemplateContext) -> (res: Vec<TemplateEntry>)
    ensures
        res@.len() == 5,
        forall|i: int|
            0 <= i < 5 ==> #[trigger] res@[i]@ == template_layout(
                ctx.device_id@,
                ctx.device_index as nat,
                ctx.seq as nat,
                ctx.ts@,
            )[i],
{
    let mut res: Vec<TemplateEntry> = Vec::new();
    res.push(entry("device_id", None, TemplateValue::Text(owned(ctx.device_id.as_str()))));
    res.push(entry("device", Some("id"), TemplateValue::Text(owned(ctx.device_id.as_str()))));
    res.push(entry("device", Some("index"), TemplateValue::Number(ctx.device_index)));
    res.push(entry("seq", None, TemplateValue::Number(ctx.seq)));
    res.push(entry("ts", None, TemplateValue::Text(owned(ctx.ts.as_str()))));
    res
}

/// What a rendering reported by the renderer comes to: its text, or a template
/// error carrying the renderer's message.
pub fn render_outcome(rendered: Result<String, String>) -> (res: Result<String, MerError>)
    ensures
        match rendered {
            Ok(s) => res matches Ok(t) && t@ == s@,
            Err(m) => res matches Err(e) && e@ == MerErrorView::Template(m@),
        },
{
    match rendered {
        Ok(s) => Ok(s),
        Err(m) => Err(MerError::Template(m)),
    }
}

/// Registers a template under `name`; a template that does not compile is a
/// template error carrying the compiler's message, and leaves the registry's
/// names as they were.
pub fn register_template(hbs: &mut handlebars::Handlebars<'static>, name: &str, template: &str) -> (res:
    Result<(), MerError>)
    ensures
        match template_compile_error(name@, template@) {
            None => {
                &&& res is Ok
                &&& registered_template_names(*final(hbs)) == registered_template_names(
                    *old(hbs),
                ).insert(name@)
            },
            Some(m) => {
                &&& res matches Err(e) && e@ == MerErrorView::Template(m)
                &&& registered_template_names(*final(hbs)) == registered_template_names(
                    *old(hbs),
                )
            },
        },
{
    match hbs_register(hbs, name, template) {
        Ok(()) => Ok(()),
        Err(m) => Err(MerError::Template(m)),
    }
}

/// Where the template of a template-mode payload comes from.
#[derive(Debug, Clone)]
pub enum TemplateSource {
    /// Read from the file at this path.
    File(String),
    /// Given in the configuration.
    Inline(String),
}

/// The template source of a payload section: the file when one is configured,
/// else the inline text; neither is a configuration error.
pub fn template_source(payload: &PayloadConfig) -> (res: Result<TemplateSource, MerError>)
    ensures
        match (payload.template_file, payload.template_inline) {
            (Some(f), _) => res matches Ok(TemplateSource::File(p)) && p@ == f@,
            (None, Some(t)) => res matches Ok(TemplateSource::Inline(x)) && x@ == t@,
            (None, None) => res matches Err(e) && e@ == MerErrorView::Config(
                "Template mode requires template_file or template_inline"@,
            ),
        },
{
    match &payload.template_file {
        Some(f) => Ok(TemplateSource::File(owned(f.as_str()))),
        None => match &payload.template_inline {
            Some(t) => Ok(TemplateSource::Inline(owned(t.as_str()))),
            None => Err(
                MerError::Config(owned("Template mode requires template_file or template_inline")),
            ),
        },
    }
}

/// The error for a template file that cannot be read, given the reader's message.
pub fn unreadable_template_error(path: &str, detail: &str) -> (res: MerError)
    ensures
        res@ == MerErrorView::Config("Cannot read template file '"@ + path@ + "': "@ + detail@),
{
    let head = concat3("Cannot read template file '", path, "': ");
    MerError::Config(concat2(head.as_str(), detail))
}

} // verus!
