//! Element conversations in the preview: the request the inspector sends when
//! the user talks about elements picked on the page, turned into the model
//! request (elements, pasted screenshots, provider and model).

use vstd::prelude::*;
use crate::desktop::MessageAttachment;
use crate::text::{chars_of, concat_str, decimal, decimal_spec, join, join_spec, string_of, strings_view};
use crate::url_policy::strip_leading;

verus! {

/// A picked element: its reference (`@N`) and where it is on the page.
#[derive(Debug, PartialEq, Eq)]
pub struct AsideElement {
    pub reference: Option<String>,
    pub locator: Option<String>,
}

/// A screenshot pasted into the element conversation (Base64 data).
#[derive(Debug, PartialEq, Eq)]
pub struct PastedImage {
    pub data: Option<String>,
    pub media_type: Option<String>,
}

pub open spec fn text_or_empty(o: Option<String>) -> Seq<char> {
    match o {
        Some(s) => s@,
        None => Seq::empty(),
    }
}

pub open spec fn element_tag(index: Seq<char>, locator: Seq<char>) -> Seq<char> {
    "<element index=\""@ + index + "\">\n"@ + locator + "\n</element>"@
}

/// The tags of the elements that carry a reference, numbered by it without its `@`s.
pub open spec fn element_tags(es: Seq<AsideElement>) -> Seq<Seq<char>>
    decreases es.len(),
{
    if es.len() == 0 {
        Seq::empty()
    } else {
        let prev = element_tags(es.drop_last());
        match es.last().reference {
            Some(r) => prev.push(element_tag(strip_leading(r@, '@'), text_or_empty(es.last().locator))),
            None => prev,
        }
    }
}

/// The block of picked elements: one tag per referenced element; without
/// any, the single element of an older request as element 1, or nothing.
pub open spec fn elements_block_spec(elements: Option<Seq<AsideElement>>, element: Seq<char>) -> Seq<char> {
    let joined = match elements {
        Some(es) => join_spec(element_tags(es), "\n"@),
        None => Seq::empty(),
    };
    if joined.len() > 0 {
        joined
    } else if element.len() == 0 {
        Seq::empty()
    } else {
        element_tag("1"@, element)
    }
}

fn strip_at(r: &str) -> (s: String)
    ensures
        s@ == strip_leading(r@, '@'),
{
    let v = chars_of(r);
    let n = v.len();
    let mut lo: usize = 0;
    assert(v@.subrange(0, n as int) =~= v@);
    while lo < n && v[lo] == '@'
        invariant
            lo <= n,
            n == v.len(),
            strip_leading(v@, '@') == strip_leading(v@.subrange(lo as int, n as int), '@'),
        decreases n - lo,
    {
        assert(v@.subrange(lo as int, n as int).drop_first() =~= v@.subrange(lo + 1, n as int));
        lo += 1;
    }
    let mut out: Vec<char> = Vec::new();
    let mut k: usize = lo;
    while k < n
        invariant
            lo <= k <= n,
            n == v.len(),
            out@ == v@.subrange(lo as int, k as int),
        decreases n - k,
    {
        out.push(v[k]);
        k += 1;
    }
    if lo < n {
        assert(v@.subrange(lo as int, n as int)[0] != '@');
    }
    string_of(&out)
}

fn tag(index: &str, locator: &str) -> (s: String)
    ensures
        s@ == element_tag(index@, locator@),
{
    let a = concat_str("<element index=\"", index);
    let b = concat_str(a.as_str(), "\">\n");
    let c = concat_str(b.as_str(), locator);
    concat_str(c.as_str(), "\n</element>")
}

/// The elements block of an element-conversation message.
pub fn elements_block(elements: Option<&Vec<AsideElement>>, element: &str) -> (s: String)
    ensures
        s@ == elements_block_spec(match elements {
            Some(v) => Some(v@),
            None => None,
        }, element@),
{
    let joined = match elements {
        Some(es) => {
            let mut tags: Vec<String> = Vec::new();
            let mut i: usize = 0;
            while i < es.len()
                invariant
                    i <= es.len(),
                    strings_view(tags@) == element_tags(es@.subrange(0, i as int)),
                decreases es.len() - i,
            {
                proof {
                    let sub = es@.subrange(0, i + 1);
                    assert(sub.drop_last() =~= es@.subrange(0, i as int));
                    assert(sub.last() == es@[i as int]);
                }
                match &es[i].reference {
                    Some(r) => {
                        let n = strip_at(r.as_str());
                        let loc = match &es[i].locator {
                            Some(l) => l.clone(),
                            None => String::new(),
                        };
                        let t = tag(n.as_str(), loc.as_str());
                        let ghost before = strings_view(tags@);
                        tags.push(t);
                        assert(strings_view(tags@) =~= before.push(tags@.last()@));
                    },
                    None => {},
                }
                i += 1;
            }
            assert(es@.subrange(0, es.len() as int) =~= es@);
            join(&tags, "\n")
        },
        None => String::new(),
    };
    if !joined.as_str().is_empty() {
        joined
    } else if element.is_empty() {
        String::new()
    } else {
        tag("1", element)
    }
}

/// The image attachments of the pasted screenshots that carry data: the
/// `n`-th screenshot (counting all of them, from 1) is `pasted-<n>.png`, of
/// its media type or `image/png`.
pub open spec fn pasted_spec(images: Seq<PastedImage>) -> Seq<(Seq<char>, Seq<char>, Seq<char>)>
    decreases images.len(),
{
    if images.len() == 0 {
        Seq::empty()
    } else {
        let prev = pasted_spec(images.drop_last());
        let img = images.last();
        match img.data {
            Some(d) => prev.push((
                "pasted-"@ + decimal_spec(images.len()) + ".png"@,
                match img.media_type {
                    Some(m) => m@,
                    None => "image/png"@,
                },
                d@,
            )),
            None => prev,
        }
    }
}

pub open spec fn attachments_view(v: Seq<MessageAttachment>) -> Seq<(Seq<char>, Seq<char>, Seq<char>)> {
    v.map_values(|a: MessageAttachment| match a {
        MessageAttachment::Image { name, media_type, data } => (name@, media_type@, data@),
        MessageAttachment::TextFile { name, media_type, content } => (name@, media_type@, content@),
    })
}

pub fn pasted_attachments(images: Option<&Vec<PastedImage>>) -> (r: Vec<MessageAttachment>)
    requires
        images matches Some(v) ==> v.len() < u64::MAX,
    ensures
        forall|i: int| 0 <= i < r.len() ==> r@[i] is Image,
        attachments_view(r@) == match images {
            Some(v) => pasted_spec(v@),
            None => Seq::empty(),
        },
{
    let mut out: Vec<MessageAttachment> = Vec::new();
    match images {
        None => {
            assert(attachments_view(out@) =~= Seq::<(Seq<char>, Seq<char>, Seq<char>)>::empty());
            out
        },
        Some(v) => {
            let mut i: usize = 0;
            while i < v.len()
                invariant
                    i <= v.len(),
                    v.len() < u64::MAX,
                    forall|k: int| 0 <= k < out.len() ==> out@[k] is Image,
                    attachments_view(out@) == pasted_spec(v@.subrange(0, i as int)),
                decreases v.len() - i,
            {
                proof {
                    let sub = v@.subrange(0, i + 1);
                    assert(sub.drop_last() =~= v@.subrange(0, i as int));
                    assert(sub.last() == v@[i as int]);
                }
                match &v[i].data {
                    Some(d) => {
                        let n = decimal((i + 1) as u64);
                        let a = concat_str("pasted-", n.as_str());
                        let name = concat_str(a.as_str(), ".png");
                        let media_type = match &v[i].media_type {
                            Some(m) => m.clone(),
                            None => "image/png".to_string(),
                        };
                        let ghost before = attachments_view(out@);
                        let att = MessageAttachment::Image { name, media_type, data: d.clone() };
                        out.push(att);
                        assert(attachments_view(out@) =~= before.push(attachments_view(out@).last()));
                    },
                    None => {},
                }
                i += 1;
            }
            assert(v@.subrange(0, v.len() as int) =~= v@);
            out
        },
    }
}

/// The user message of an element conversation: the elements block in front
/// of the text (the system prompt stays the same, so it can be cached).
pub fn aside_user_content(elements_block: &str, text: &str) -> (s: String)
    ensures
        elements_block@.len() == 0 ==> s@ == text@,
        elements_block@.len() > 0 ==> s@ == "<selected_elements>\n"@ + elements_block@ + "\n</selected_elements>\n\n"@ + text@,
{
    if elements_block.is_empty() {
        text.to_string()
    } else {
        let a = concat_str("<selected_elements>\n", elements_block);
        let b = concat_str(a.as_str(), "\n</selected_elements>\n\n");
        concat_str(b.as_str(), text)
    }
}

/// The provider and model of an element conversation: those picked on the
/// card, else the main conversation's (empty when it could not be read); an
/// error when there is no provider.
pub fn aside_provider_model(picked_provider: Option<String>, picked_model: Option<String>, main: Option<(String, String)>) -> (r: Result<(String, String), String>)
    ensures
        ({
            let (dp, dm) = match main {
                Some((p, m)) => (p@, m@),
                None => (Seq::<char>::empty(), Seq::<char>::empty()),
            };
            let p = match picked_provider { Some(x) => x@, None => dp };
            let m = match picked_model { Some(x) => x@, None => dm };
            if p.len() == 0 {
                r matches Err(e) && e@ == "这个对话还没配置模型，没法开元素对话"@
            } else {
                r matches Ok((rp, rm)) && rp@ == p && rm@ == m
            }
        }),
{
    let (dp, dm) = match main {
        Some((p, m)) => (p, m),
        None => (String::new(), String::new()),
    };
    let provider = match picked_provider {
        Some(x) => x,
        None => dp,
    };
    let model = match picked_model {
        Some(x) => x,
        None => dm,
    };
    if provider.as_str().is_empty() {
        return Err("这个对话还没配置模型，没法开元素对话".to_string());
    }
    Ok((provider, model))
}

/// The id of an element conversation: the one the inspector sent back when
/// not empty; else a new `aside-<fresh>`, which the inspector has to learn
/// (the flag says so).
pub fn aside_session_id(sent: Option<&str>, fresh: &str) -> (r: (String, bool))
    ensures
        match sent {
            Some(s) => if s@.len() > 0 { r.0@ == s@ && !r.1 } else { r.0@ == "aside-"@ + fresh@ && r.1 },
            None => r.0@ == "aside-"@ + fresh@ && r.1,
        },
{
    match sent {
        Some(s) => if !s.is_empty() {
            return (s.to_string(), false);
        },
        None => {},
    }
    (concat_str("aside-", fresh), true)
}

/// The inputs of a preview tool call that matter here (`None` where the
/// input has no such string or flag).
#[derive(Debug, PartialEq, Eq)]
pub struct PreviewToolInput {
    pub prop: Option<String>,
    pub value: Option<String>,
    pub target: Option<String>,
    pub all_matches: Option<bool>,
}

/// The events of an element conversation's run that the page hears about.
#[derive(Debug)]
pub enum AsideEvent {
    TextDelta { text: String },
    ToolStart { name: String, input: PreviewToolInput },
    RunFinished,
    Other,
}

/// A message down to the page that hosts the element conversation.
#[derive(Debug, PartialEq, Eq)]
pub enum AsideDown {
    /// `heb:aside:delta`: streamed text.
    Delta { text: String },
    /// `heb:aside:apply`: apply a style to the target now.
    Apply { prop: String, value: String, target: String, all_matches: bool },
    /// `heb:aside:mutate`: the tool input, its target set to `@1` when it has none.
    Mutate { default_target: bool },
    /// `heb:aside:act`: likewise for page actions.
    Act { default_target: bool },
    /// `heb:aside:tool`: an observing tool was called (shown in the chat).
    Tool { name: String },
    /// `heb:aside:done`: the run ended.
    Done,
}

/// The channel a message goes down on.
pub fn aside_channel(d: &AsideDown) -> (c: &'static str)
    ensures
        c@ == match d {
            AsideDown::Delta { .. } => "heb:aside:delta"@,
            AsideDown::Apply { .. } => "heb:aside:apply"@,
            AsideDown::Mutate { .. } => "heb:aside:mutate"@,
            AsideDown::Act { .. } => "heb:aside:act"@,
            AsideDown::Tool { .. } => "heb:aside:tool"@,
            AsideDown::Done => "heb:aside:done"@,
        },
{
    match d {
        AsideDown::Delta { .. } => "heb:aside:delta",
        AsideDown::Apply { .. } => "heb:aside:apply",
        AsideDown::Mutate { .. } => "heb:aside:mutate",
        AsideDown::Act { .. } => "heb:aside:act",
        AsideDown::Tool { .. } => "heb:aside:tool",
        AsideDown::Done => "heb:aside:done",
    }
}

pub open spec fn or_text(o: Option<String>, d: Seq<char>) -> Seq<char> {
    match o {
        Some(s) => s@,
        None => d,
    }
}

/// What an event of the element conversation sends down: text as it streams,
/// style changes applied at once, DOM changes and page actions (their target
/// defaulting to `@1`), observing tools for the chat, the end of the run.
pub open spec fn route_spec(e: AsideEvent, r: Option<AsideDown>) -> bool {
    match e {
        AsideEvent::TextDelta { text } => r == Some(AsideDown::Delta { text }),
        AsideEvent::ToolStart { name, input } => if name@ == "PreviewStyle"@ {
            r matches Some(AsideDown::Apply { prop, value, target, all_matches })
                && prop@ == or_text(input.prop, ""@) && value@ == or_text(input.value, ""@)
                && target@ == or_text(input.target, "@1"@)
                && all_matches == match input.all_matches { Some(b) => b, None => false }
        } else if name@ == "PreviewMutate"@ {
            r == Some(AsideDown::Mutate { default_target: input.target is None })
        } else if name@ == "PreviewAct"@ {
            r == Some(AsideDown::Act { default_target: input.target is None })
        } else if name@ == "PreviewInspect"@ || name@ == "PreviewCapture"@ {
            r == Some(AsideDown::Tool { name })
        } else {
            r is None
        },
        AsideEvent::RunFinished => r == Some(AsideDown::Done),
        AsideEvent::Other => r is None,
    }
}

fn text_or(o: Option<String>, d: &str) -> (s: String)
    ensures
        s@ == or_text(o, d@),
{
    match o {
        Some(s) => s,
        None => d.to_string(),
    }
}

pub fn route_aside_event(event: AsideEvent) -> (r: Option<AsideDown>)
    ensures
        route_spec(event, r),
{
    match event {
        AsideEvent::TextDelta { text } => Some(AsideDown::Delta { text }),
        AsideEvent::ToolStart { name, input } => {
            let nv = chars_of(name.as_str());
            if crate::text::eq_str(&nv, "PreviewStyle") {
                let all_matches = match input.all_matches {
                    Some(b) => b,
                    None => false,
                };
                Some(AsideDown::Apply {
                    prop: text_or(input.prop, ""),
                    value: text_or(input.value, ""),
                    target: text_or(input.target, "@1"),
                    all_matches,
                })
            } else if crate::text::eq_str(&nv, "PreviewMutate") {
                Some(AsideDown::Mutate { default_target: input.target.is_none() })
            } else if crate::text::eq_str(&nv, "PreviewAct") {
                Some(AsideDown::Act { default_target: input.target.is_none() })
            } else if crate::text::eq_str(&nv, "PreviewInspect") || crate::text::eq_str(&nv, "PreviewCapture") {
                Some(AsideDown::Tool { name })
            } else {
                None
            }
        },
        AsideEvent::RunFinished => Some(AsideDown::Done),
        AsideEvent::Other => None,
    }
}

/// What the host does with a message from the page inspector.
#[derive(Debug, PartialEq, Eq)]
pub enum InspectorRoute {
    /// Hand the payload to the front end on `channel`, tagged with the conversation.
    Emit { channel: String },
    /// Summarise all collected annotations for the main conversation.
    SubmitAll,
    /// A message of an element conversation.
    AsideSend,
    /// Stop the element conversation's run.
    AsideStop,
    /// Send the model list to the element card.
    ModelsRequest,
    /// The element picker was cancelled on the page.
    PickerCancelled,
    Ignore,
}

pub open spec fn emit_route(r: InspectorRoute, channel: Seq<char>) -> bool {
    r matches InspectorRoute::Emit { channel: c } && c@ == channel
}

/// Where each inspector message type goes.
pub open spec fn inspector_route_spec(ty: Seq<char>, r: InspectorRoute) -> bool {
    if ty == "heb:annotation:submit"@ {
        emit_route(r, "browser://annotation"@)
    } else if ty == "heb:annotation:submit-batch"@ {
        emit_route(r, "browser://annotation-batch"@)
    } else if ty == "heb:annotation:submit-all"@ {
        r is SubmitAll
    } else if ty == "heb:annotation:dirty"@ {
        emit_route(r, "browser://annotation-dirty"@)
    } else if ty == "heb:aside:send"@ {
        r is AsideSend
    } else if ty == "heb:aside:stop"@ {
        r is AsideStop
    } else if ty == "heb:aside:models:request"@ {
        r is ModelsRequest
    } else if ty == "heb:picker:cancelled"@ {
        r is PickerCancelled
    } else if ty == "heb:ready"@ || ty == "heb:navigated"@ {
        emit_route(r, "browser://title"@)
    } else {
        r is Ignore
    }
}

pub fn inspector_route(ty: &str) -> (r: InspectorRoute)
    ensures
        inspector_route_spec(ty@, r),
{
    let v = chars_of(ty);
    if crate::text::eq_str(&v, "heb:annotation:submit") {
        InspectorRoute::Emit { channel: "browser://annotation".to_string() }
    } else if crate::text::eq_str(&v, "heb:annotation:submit-batch") {
        InspectorRoute::Emit { channel: "browser://annotation-batch".to_string() }
    } else if crate::text::eq_str(&v, "heb:annotation:submit-all") {
        InspectorRoute::SubmitAll
    } else if crate::text::eq_str(&v, "heb:annotation:dirty") {
        InspectorRoute::Emit { channel: "browser://annotation-dirty".to_string() }
    } else if crate::text::eq_str(&v, "heb:aside:send") {
        InspectorRoute::AsideSend
    } else if crate::text::eq_str(&v, "heb:aside:stop") {
        InspectorRoute::AsideStop
    } else if crate::text::eq_str(&v, "heb:aside:models:request") {
        InspectorRoute::ModelsRequest
    } else if crate::text::eq_str(&v, "heb:picker:cancelled") {
        InspectorRoute::PickerCancelled
    } else if crate::text::eq_str(&v, "heb:ready") || crate::text::eq_str(&v, "heb:navigated") {
        InspectorRoute::Emit { channel: "browser://title".to_string() }
    } else {
        InspectorRoute::Ignore
    }
}

pub open spec fn summary_prompt_spec(items_json: Seq<char>) -> Seq<char> {
    "下面是用户在网页预览里收集的若干条注释（JSON）。每条含：选中元素的定位快照（elements，含 selectorPath / xpath / react 组件链 / 文本）、与样式助手的对话原文（conversation）、实际调过的样式（styleDiffs，prop: before → after）、整组 selector 改动（selectorStyleChanges）、结构改动（structuralChanges）。\n\n"@ + items_json + "\n\n把它们合并总结成**一段给「主对话」看的话**，让它去修改源代码真正实现这些效果。要求：\n① 按元素分组，逐条列「CSS 属性 → 目标值」和结构改动；\n② 结合 react 组件链 / 元素文本给出足够 grep 的源码定位锚点（别只说 div+class）；\n③ 对话里用户表达的意图（如「要再醒目一点」）要保留为上下文；\n④ selectorStyleChanges 里的条目是作用于一类元素的整组改动（selector + 命中数），必须说「改共享组件/共享 class」，不要给单个实例加特例；\n⑤ 删除类操作说明要在源码里移除元素，而不是 display:none。\n\n只输出这段总结，不要再调工具。"@
}

/// The request that has the model merge the collected annotations (`items_json`,
/// pretty-printed) into one message for the main conversation.
pub fn annotation_summary_prompt(items_json: &str) -> (p: String)
    ensures
        p@ == summary_prompt_spec(items_json@),
{
    let a = concat_str("下面是用户在网页预览里收集的若干条注释（JSON）。每条含：选中元素的定位快照（elements，含 selectorPath / xpath / react 组件链 / 文本）、与样式助手的对话原文（conversation）、实际调过的样式（styleDiffs，prop: before → after）、整组 selector 改动（selectorStyleChanges）、结构改动（structuralChanges）。\n\n", items_json);
    concat_str(a.as_str(), "\n\n把它们合并总结成**一段给「主对话」看的话**，让它去修改源代码真正实现这些效果。要求：\n① 按元素分组，逐条列「CSS 属性 → 目标值」和结构改动；\n② 结合 react 组件链 / 元素文本给出足够 grep 的源码定位锚点（别只说 div+class）；\n③ 对话里用户表达的意图（如「要再醒目一点」）要保留为上下文；\n④ selectorStyleChanges 里的条目是作用于一类元素的整组改动（selector + 命中数），必须说「改共享组件/共享 class」，不要给单个实例加特例；\n⑤ 删除类操作说明要在源码里移除元素，而不是 display:none。\n\n只输出这段总结，不要再调工具。")
}

/// The provider and model that summarise the annotations: the main
/// conversation's; an error when it has no provider.
pub fn annotation_provider(main: Option<(String, String)>) -> (r: Result<(String, String), String>)
    ensures
        match main {
            Some((p, m)) => if p@.len() > 0 { r == Ok::<(String, String), String>((p, m)) } else { r matches Err(e) && e@ == "这个对话还没配置模型，没法提交注释"@ },
            None => r matches Err(e) && e@ == "这个对话还没配置模型，没法提交注释"@,
        },
{
    match main {
        Some((p, m)) => if !p.as_str().is_empty() {
            Ok((p, m))
        } else {
            Err("这个对话还没配置模型，没法提交注释".to_string())
        },
        None => Err("这个对话还没配置模型，没法提交注释".to_string()),
    }
}

/// The system prompt of element conversations (the same every turn; the
/// picked elements go into the user messages).
pub fn aside_system_prompt() -> (p: String)
    ensures
        p@ == "你是网页预览里的「样式调整助手」。用户在页面上圈了一个或多个元素（按 1、2、3… 编号），你帮他在预览上**临时**调整看效果。每轮用户消息前会附上 <selected_elements> 块：每个 <element index=\"N\"> 是一个选中元素的定位信息。用户会用自然语言说「1」「第二个」指代它们。\n\n你的工具（target 参数填 @N 或任意 CSS selector）：\n• PreviewStyle(prop, value, target, allMatches) —— 实时改元素内联样式。target 可以是 @N，也可以是 CSS selector；selector + allMatches=true 时同时改所有匹配元素。一次改一个属性，想微调再调一次。\n• PreviewMutate(op, target, …) —— 改 DOM 结构：op=append（target 内追加 html 片段）/ remove（移除 target）/ setText（改 target 文本为 text）。同样是预览草稿，刷新即消失。\n• PreviewAct(action, target, …) —— 和页面交互：click / type(text) / hover / press(key) / scroll(delta)。target 支持任意 selector——可以操作用户没圈选的元素（如点开下拉菜单）。\n• PreviewInspect(selector, what) —— 动手前先看清楚：what=rules 查该元素生效的 CSS 规则链（样式「改了没反应」十有八九是被更高优先级规则覆盖，先查再改）；what=siblings 查同级结构（sameStructureCount > 1 说明它是重复结构中的一个）；what=tree 查子树。\n• PreviewCapture(selector?) —— 截图亲眼确认效果。改完关键样式后截一张验证是否真的生效；用户描述「看起来不对」时先截图看现场。\n\n⚠️ 改一个还是改一类——动手前必须判断：\n用户圈的元素若是列表项/卡片/重复按钮这类同构结构中的一个（<selected_elements> 的同级信息或 PreviewInspect siblings 可判断），用户说「改这个」通常意味着**改整组**——只改一个会让页面看起来坏了。这时用 selector + allMatches=true 整组应用；拿不准就先问一句「只改这个，还是所有同类一起改？」。\n\n建议工作流：先 Inspect 看清现状 → 改 → Capture 验证 → 不对就调整。\n\n重要——理解你的定位：\n• 你做的都是**临时预览效果**，不是最终实现。用户满意后，会由「主对话」**修改源代码**真正落地。\n• 所以你心里要清楚「这个效果对应到源码该怎么改」，过程中可以简短点一下。整组改动对应的源码改动是共享组件/共享 class，不是给单个实例加特例。\n• 删除元素用 PreviewMutate remove（预览态），并说明真正删除要在源码里移除该元素/组件。\n• 别假设源码怎么存放。你只负责把效果调好，并说清楚改了什么、对应什么源码改动。\n\n先理解用户要的效果，再动手。保持简洁。"@,
{
    "你是网页预览里的「样式调整助手」。用户在页面上圈了一个或多个元素（按 1、2、3… 编号），你帮他在预览上**临时**调整看效果。每轮用户消息前会附上 <selected_elements> 块：每个 <element index=\"N\"> 是一个选中元素的定位信息。用户会用自然语言说「1」「第二个」指代它们。\n\n你的工具（target 参数填 @N 或任意 CSS selector）：\n• PreviewStyle(prop, value, target, allMatches) —— 实时改元素内联样式。target 可以是 @N，也可以是 CSS selector；selector + allMatches=true 时同时改所有匹配元素。一次改一个属性，想微调再调一次。\n• PreviewMutate(op, target, …) —— 改 DOM 结构：op=append（target 内追加 html 片段）/ remove（移除 target）/ setText（改 target 文本为 text）。同样是预览草稿，刷新即消失。\n• PreviewAct(action, target, …) —— 和页面交互：click / type(text) / hover / press(key) / scroll(delta)。target 支持任意 selector——可以操作用户没圈选的元素（如点开下拉菜单）。\n• PreviewInspect(selector, what) —— 动手前先看清楚：what=rules 查该元素生效的 CSS 规则链（样式「改了没反应」十有八九是被更高优先级规则覆盖，先查再改）；what=siblings 查同级结构（sameStructureCount > 1 说明它是重复结构中的一个）；what=tree 查子树。\n• PreviewCapture(selector?) —— 截图亲眼确认效果。改完关键样式后截一张验证是否真的生效；用户描述「看起来不对」时先截图看现场。\n\n⚠️ 改一个还是改一类——动手前必须判断：\n用户圈的元素若是列表项/卡片/重复按钮这类同构结构中的一个（<selected_elements> 的同级信息或 PreviewInspect siblings 可判断），用户说「改这个」通常意味着**改整组**——只改一个会让页面看起来坏了。这时用 selector + allMatches=true 整组应用；拿不准就先问一句「只改这个，还是所有同类一起改？」。\n\n建议工作流：先 Inspect 看清现状 → 改 → Capture 验证 → 不对就调整。\n\n重要——理解你的定位：\n• 你做的都是**临时预览效果**，不是最终实现。用户满意后，会由「主对话」**修改源代码**真正落地。\n• 所以你心里要清楚「这个效果对应到源码该怎么改」，过程中可以简短点一下。整组改动对应的源码改动是共享组件/共享 class，不是给单个实例加特例。\n• 删除元素用 PreviewMutate remove（预览态），并说明真正删除要在源码里移除该元素/组件。\n• 别假设源码怎么存放。你只负责把效果调好，并说清楚改了什么、对应什么源码改动。\n\n先理解用户要的效果，再动手。保持简洁。".to_string()
}


/// A provider as the model picker sees it: its id, name, whether it is
/// switched on, and the model names it lists.
#[derive(Debug, PartialEq, Eq)]
pub struct PickerProvider {
    pub id: String,
    pub name: String,
    pub enabled: bool,
    pub models: Vec<String>,
}

/// One entry of the aside model picker.
#[derive(Debug, PartialEq, Eq)]
pub struct ModelChoice {
    pub provider_id: String,
    pub model: String,
    pub label: String,
}

pub open spec fn choice_is(c: ModelChoice, p: PickerProvider, m: Seq<char>) -> bool {
    c.provider_id == p.id && c.model@ == m && c.label@ == m + " · "@ + p.name@
}

/// The picker's entries of the providers in `ps`, in order.
pub open spec fn choices_spec(ps: Seq<PickerProvider>) -> Seq<(PickerProvider, Seq<char>)>
    decreases ps.len(),
{
    if ps.len() == 0 {
        Seq::empty()
    } else {
        let last = ps.last();
        let rest = choices_spec(ps.drop_last());
        if last.enabled {
            rest + strings_view(last.models@).map_values(|m: Seq<char>| (last, m))
        } else {
            rest
        }
    }
}

/// The aside's model picker: every model of every provider that is not
/// switched off, labelled `model · provider`, in the order they are listed.
pub fn aside_model_choices(providers: &Vec<PickerProvider>) -> (r: Vec<ModelChoice>)
    ensures
        r@.len() == choices_spec(providers@).len(),
        forall|i: int| 0 <= i < r@.len() ==> choice_is(#[trigger] r@[i], choices_spec(providers@)[i].0, choices_spec(providers@)[i].1),
{
    let mut out: Vec<ModelChoice> = Vec::new();
    let mut i: usize = 0;
    while i < providers.len()
        invariant
            i <= providers.len(),
            out@.len() == choices_spec(providers@.subrange(0, i as int)).len(),
            forall|k: int| 0 <= k < out@.len() ==> choice_is(#[trigger] out@[k],
                choices_spec(providers@.subrange(0, i as int))[k].0, choices_spec(providers@.subrange(0, i as int))[k].1),
        decreases providers.len() - i,
    {
        let p = &providers[i];
        let ghost before = choices_spec(providers@.subrange(0, i as int));
        assert(providers@.subrange(0, i + 1).drop_last() =~= providers@.subrange(0, i as int));
        assert(providers@.subrange(0, i + 1).last() == providers@[i as int]);
        if p.enabled {
            let ghost added = strings_view(p.models@).map_values(|m: Seq<char>| (*p, m));
            let start = out.len();
            let mut j: usize = 0;
            while j < p.models.len()
                invariant
                    j <= p.models.len(),
                    out@.len() == start + j,
                    start == before.len(),
                    added == strings_view(p.models@).map_values(|m: Seq<char>| (*p, m)),
                    forall|k: int| 0 <= k < out@.len() ==> choice_is(#[trigger] out@[k], (before + added)[k].0, (before + added)[k].1),
                decreases p.models.len() - j,
            {
                let m = &p.models[j];
                let a = concat_str(m.as_str(), " · ");
                let label = concat_str(a.as_str(), p.name.as_str());
                out.push(ModelChoice { provider_id: p.id.clone(), model: m.clone(), label });
                assert((before + added)[start + j] == (*p, p.models@[j as int]@));
                j += 1;
            }
        }
        i += 1;
    }
    assert(providers@.subrange(0, providers.len() as int) =~= providers@);
    out
}

} // verus!

