//! The content model shared by every operation: a `Content` is an ordered
//! run of `Part`s with an optional author role.

use vstd::prelude::*;

use crate::json::{spec_get, spec_opt_arr, spec_req_str, Json};

verus! {

/// Author of a piece of content.
#[derive(Clone, Copy, Debug, PartialEq, Eq, Structural)]
pub enum Role {
    User,
    Model,
}

impl Role {
    /// The wire name of the role.
    pub fn as_str(&self) -> (r: &'static str)
        ensures
            *self is User ==> r@ == "user"@,
            *self is Model ==> r@ == "model"@,
    {
        match self {
            Role::User => "user",
            Role::Model => "model",
        }
    }

    /// The wire name of the role, owned.
    pub fn to_string(&self) -> (r: String)
        ensures
            *self is User ==> r@ == "user"@,
            *self is Model ==> r@ == "model"@,
    {
        String::from_str(self.as_str())
    }

    /// The role a wire name denotes, if any.
    pub fn from_str(s: &str) -> (r: Option<Role>)
        ensures
            s@ == "user"@ ==> r == Some(Role::User),
            s@ == "model"@ ==> r == Some(Role::Model),
            s@ != "user"@ && s@ != "model"@ ==> r is None,
    {
        proof {
            reveal_strlit("user");
            reveal_strlit("model");
            assert("user"@.len() == 4);
            assert("model"@.len() == 5);
        }
        if crate::json::str_eq(s, "user") {
            Some(Role::User)
        } else if crate::json::str_eq(s, "model") {
            Some(Role::Model)
        } else {
            None
        }
    }
}

/// One unit of content; exactly one variant is active.
#[derive(Clone, Debug, PartialEq)]
pub enum Part {
    Text(String),
    InlineData { mime_type: String, data: String },
    FileData { mime_type: String, file_uri: String },
    FunctionCall { name: String, args: Vec<(String, String)> },
}

/// Mathematical image of [`Part`].
pub ghost enum PartView {
    Text(Seq<char>),
    InlineData { mime_type: Seq<char>, data: Seq<char> },
    FileData { mime_type: Seq<char>, file_uri: Seq<char> },
    FunctionCall { name: Seq<char>, args: Seq<(Seq<char>, Seq<char>)> },
}

impl DeepView for Part {
    type V = PartView;

    open spec fn deep_view(&self) -> PartView {
        match self {
            Part::Text(t) => PartView::Text(t.deep_view()),
            Part::InlineData { mime_type, data } => PartView::InlineData {
                mime_type: mime_type.deep_view(),
                data: data.deep_view(),
            },
            Part::FileData { mime_type, file_uri } => PartView::FileData {
                mime_type: mime_type.deep_view(),
                file_uri: file_uri.deep_view(),
            },
            Part::FunctionCall { name, args } => PartView::FunctionCall {
                name: name.deep_view(),
                args: args.deep_view(),
            },
        }
    }
}

/// An ordered run of parts with an optional author role.
#[derive(Clone, Debug, PartialEq)]
pub struct Content {
    pub role: Option<Role>,
    pub parts: Option<Vec<Part>>,
}

/// Mathematical image of [`Content`].
pub ghost struct ContentView {
    pub role: Option<Role>,
    pub parts: Option<Seq<PartView>>,
}

impl DeepView for Content {
    type V = ContentView;

    open spec fn deep_view(&self) -> ContentView {
        ContentView {
            role: self.role,
            parts: match self.parts {
                Some(ps) => Some(ps.deep_view()),
                None => None,
            },
        }
    }
}

impl Default for Content {
    /// Content with no role and no parts.
    fn default() -> (r: Content)
        ensures
            r.role is None,
            r.parts is None,
    {
        Content { role: None, parts: None }
    }
}

/// What one part contributes to the extracted text: the characters of a
/// text part, nothing from any other variant.
pub open spec fn spec_part_text_piece(p: PartView) -> Seq<char> {
    match p {
        PartView::Text(t) => t,
        _ => Seq::empty(),
    }
}

/// The concatenation of all text parts, in order.
pub open spec fn spec_parts_text(s: Seq<PartView>) -> Seq<char>
    decreases s.len(),
{
    if s.len() == 0 {
        Seq::empty()
    } else {
        spec_part_text_piece(s[0]) + spec_parts_text(s.drop_first())
    }
}

impl ContentView {
    /// The extractable text: present exactly when parts are, the
    /// concatenation of all text parts in order.
    pub open spec fn text(self) -> Option<Seq<char>> {
        match self.parts {
            Some(ps) => Some(spec_parts_text(ps)),
            None => None,
        }
    }
}

pub(crate) proof fn lemma_parts_text_take_step(s: Seq<PartView>, i: int)
    requires
        0 <= i < s.len(),
    ensures
        spec_parts_text(s.take(i + 1)) == spec_parts_text(s.take(i)) + spec_part_text_piece(s[i]),
    decreases i,
{
    if i == 0 {
        assert(s.take(1) =~= seq![s[0]]);
        assert(s.take(1).drop_first() =~= Seq::empty());
        assert(s.take(0) =~= Seq::empty());
        assert(spec_parts_text(s.take(1)) =~= spec_parts_text(s.take(0)) + spec_part_text_piece(
            s[0],
        ));
    } else {
        lemma_parts_text_take_step(s.drop_first(), i - 1);
        assert(s.take(i + 1).drop_first() =~= s.drop_first().take(i));
        assert(s.take(i).drop_first() =~= s.drop_first().take(i - 1));
        assert(s.take(i + 1)[0] == s[0]);
        assert(s.take(i)[0] == s[0]);
        assert(spec_parts_text(s.take(i + 1)) =~= spec_parts_text(s.take(i))
            + spec_part_text_piece(s[i]));
    }
}

impl Content {
    /// The concatenation of all text parts, in order; nothing when the
    /// content has no parts at all.
    pub fn get_text(&self) -> (r: Option<String>)
        ensures
            match r {
                Some(s) => self.deep_view().text() == Some(s@),
                None => self.deep_view().text() is None,
            },
    {
        match &self.parts {
            Some(parts) => {
                let ghost pv: Seq<PartView> = parts.deep_view();
                let mut out = String::new();
                let n = parts.len();
                let mut i: usize = 0;
                assert(spec_parts_text(pv.take(0)) =~= Seq::<char>::empty());
                while i < n
                    invariant
                        i <= n,
                        n == parts@.len(),
                        pv == parts.deep_view(),
                        out@ == spec_parts_text(pv.take(i as int)),
                    decreases n - i,
                {
                    match &parts[i] {
                        Part::Text(t) => {
                            out.append(t.as_str());
                        },
                        _ => {},
                    }
                    proof {
                        assert(pv[i as int] == parts@[i as int].deep_view());
                        lemma_parts_text_take_step(pv, i as int);
                    }
                    i = i + 1;
                }
                assert(pv.take(n as int) =~= pv);
                Some(out)
            },
            None => None,
        }
    }

    /// A builder starting from empty content.
    pub fn builder() -> (r: ContentBuilder)
        ensures
            r.content.role is None,
            r.content.parts is None,
    {
        ContentBuilder { content: Content { role: None, parts: None } }
    }
}

/// The role a role value decodes to: the strings `user` and `model`,
/// nothing else.
pub open spec fn spec_role_from(j: Json) -> Option<Role> {
    match j {
        Json::Str(s) => if s@ == "user"@ {
            Some(Role::User)
        } else if s@ == "model"@ {
            Some(Role::Model)
        } else {
            None
        },
        _ => None,
    }
}

/// The characters of a string value; empty on any other value.
pub open spec fn spec_str_content(j: Json) -> Seq<char> {
    match j {
        Json::Str(s) => s@,
        _ => Seq::empty(),
    }
}

/// The argument map of a function call: every value must be a string.
pub open spec fn spec_args_from(entries: Seq<(String, Json)>) -> Option<
    Seq<(Seq<char>, Seq<char>)>,
> {
    if forall|k: int| 0 <= k < entries.len() ==> (#[trigger] entries[k]).1 is Str {
        Some(Seq::new(entries.len(), |k: int| (entries[k].0@, spec_str_content(entries[k].1))))
    } else {
        None
    }
}

/// The part behind an object's single entry: the key picks the variant.
pub open spec fn spec_part_entry(e: (String, Json)) -> Option<PartView> {
    if e.0@ == "text"@ {
        match e.1 {
            Json::Str(t) => Some(PartView::Text(t@)),
            _ => None,
        }
    } else if e.0@ == "inlineData"@ {
        match (spec_req_str(e.1, "mimeType"@), spec_req_str(e.1, "data"@)) {
            (Some(m), Some(d)) => Some(PartView::InlineData { mime_type: m@, data: d@ }),
            _ => None,
        }
    } else if e.0@ == "fileData"@ {
        match (spec_req_str(e.1, "mimeType"@), spec_req_str(e.1, "fileUri"@)) {
            (Some(m), Some(u)) => Some(PartView::FileData { mime_type: m@, file_uri: u@ }),
            _ => None,
        }
    } else if e.0@ == "functionCall"@ {
        match (spec_req_str(e.1, "name"@), spec_get(e.1, "args"@)) {
            (Some(n), Some(Json::Obj(aentries))) => match spec_args_from(aentries@) {
                Some(args) => Some(PartView::FunctionCall { name: n@, args }),
                None => None,
            },
            _ => None,
        }
    } else {
        None
    }
}

/// The part a value decodes to: an object with exactly one entry, whose
/// key names the variant.
pub open spec fn spec_part_from(j: Json) -> Option<PartView> {
    match j {
        Json::Obj(entries) => if entries@.len() == 1 {
            spec_part_entry(entries@[0])
        } else {
            None
        },
        _ => None,
    }
}

/// The parts a `parts` array decodes to: every element must decode.
pub open spec fn spec_parts_from(s: Seq<Json>) -> Option<Seq<PartView>> {
    if forall|k: int| 0 <= k < s.len() ==> spec_part_from(#[trigger] s[k]) is Some {
        Some(Seq::new(s.len(), |k: int| spec_part_from(s[k])->0))
    } else {
        None
    }
}

/// The content a value decodes to: an object whose `role` and `parts`
/// are both optional.
pub open spec fn spec_content_from(j: Json) -> Option<ContentView> {
    match j {
        Json::Obj(_) => {
            let role = match spec_get(j, "role"@) {
                None => Some(None),
                Some(Json::Null) => Some(None),
                Some(v) => match spec_role_from(v) {
                    Some(r) => Some(Some(r)),
                    None => None,
                },
            };
            let parts = match spec_opt_arr(j, "parts"@) {
                Some(None) => Some(None),
                Some(Some(elems)) => match spec_parts_from(elems) {
                    Some(ps) => Some(Some(ps)),
                    None => None,
                },
                None => None,
            };
            match (role, parts) {
                (Some(r), Some(p)) => Some(ContentView { role: r, parts: p }),
                _ => None,
            }
        },
        _ => None,
    }
}

fn args_from(entries: &Vec<(String, Json)>) -> (r: Option<Vec<(String, String)>>)
    ensures
        match r {
            Some(v) => spec_args_from(entries@) == Some(v.deep_view()),
            None => spec_args_from(entries@) is None,
        },
{
    let mut out: Vec<(String, String)> = Vec::new();
    let n = entries.len();
    let mut i: usize = 0;
    while i < n
        invariant
            i <= n,
            n == entries@.len(),
            out@.len() == i,
            forall|k: int| 0 <= k < i ==> (#[trigger] entries@[k]).1 is Str,
            forall|k: int|
                0 <= k < i ==> #[trigger] out@[k].deep_view() == (
                entries@[k].0@,
                spec_str_content(entries@[k].1),
                ),
        decreases n - i,
    {
        match &entries[i].1 {
            Json::Str(v) => {
                out.push((entries[i].0.clone(), v.clone()));
            },
            _ => {
                assert(!(entries@[i as int].1 is Str));
                return None;
            },
        }
        i = i + 1;
    }
    assert(spec_args_from(entries@) matches Some(s) && s =~= out.deep_view());
    Some(out)
}

fn part_from(j: &Json) -> (r: Option<Part>)
    ensures
        match r {
            Some(p) => spec_part_from(*j) == Some(p.deep_view()),
            None => spec_part_from(*j) is None,
        },
{
    let entries = match j {
        Json::Obj(entries) => entries,
        _ => { return None },
    };
    if entries.len() != 1 {
        return None;
    }
    let key = entries[0].0.as_str();
    let value = &entries[0].1;
    if crate::json::str_eq(key, "text") {
        match value {
            Json::Str(t) => Some(Part::Text(t.clone())),
            _ => None,
        }
    } else if crate::json::str_eq(key, "inlineData") {
        let mime_type = match value.req_str("mimeType") {
            Some(m) => m,
            None => { return None },
        };
        let data = match value.req_str("data") {
            Some(d) => d,
            None => { return None },
        };
        Some(Part::InlineData { mime_type, data })
    } else if crate::json::str_eq(key, "fileData") {
        let mime_type = match value.req_str("mimeType") {
            Some(m) => m,
            None => { return None },
        };
        let file_uri = match value.req_str("fileUri") {
            Some(u) => u,
            None => { return None },
        };
        Some(Part::FileData { mime_type, file_uri })
    } else if crate::json::str_eq(key, "functionCall") {
        let name = match value.req_str("name") {
            Some(n) => n,
            None => { return None },
        };
        let aentries = match value.get("args") {
            Some(Json::Obj(aentries)) => aentries,
            _ => { return None },
        };
        match args_from(aentries) {
            Some(args) => Some(Part::FunctionCall { name, args }),
            None => None,
        }
    } else {
        None
    }
}

fn parts_from(elems: &Vec<Json>) -> (r: Option<Vec<Part>>)
    ensures
        match r {
            Some(v) => spec_parts_from(elems@) == Some(v.deep_view()),
            None => spec_parts_from(elems@) is None,
        },
{
    let mut out: Vec<Part> = Vec::new();
    let n = elems.len();
    let mut i: usize = 0;
    while i < n
        invariant
            i <= n,
            n == elems@.len(),
            out@.len() == i,
            forall|k: int|
                0 <= k < i ==> spec_part_from(#[trigger] elems@[k]) == Some(out@[k].deep_view()),
        decreases n - i,
    {
        match part_from(&elems[i]) {
            Some(p) => { out.push(p) },
            None => {
                assert(spec_part_from(elems@[i as int]) is None);
                return None;
            },
        }
        i = i + 1;
    }
    assert(spec_parts_from(elems@) matches Some(s) && s =~= out.deep_view());
    Some(out)
}

impl Content {
    /// Decodes a content object.
    pub fn from_json(j: &Json) -> (r: Option<Content>)
        ensures
            match r {
                Some(c) => spec_content_from(*j) == Some(c.deep_view()),
                None => spec_content_from(*j) is None,
            },
    {
        match j {
            Json::Obj(_) => {},
            _ => { return None },
        }
        let role: Option<Role> = match j.get("role") {
            None => None,
            Some(Json::Null) => None,
            Some(Json::Str(s)) => match Role::from_str(s.as_str()) {
                Some(r) => Some(r),
                None => { return None },
            },
            Some(_) => { return None },
        };
        let parts: Option<Vec<Part>> = match j.opt_arr("parts") {
            Some(None) => None,
            Some(Some(elems)) => match parts_from(elems) {
                Some(ps) => Some(ps),
                None => { return None },
            },
            None => { return None },
        };
        Some(Content { role, parts })
    }
}

impl Part {
    /// Encodes this part as the object its variant key names.
    ///
    /// The contract is the round trip: decoding the encoding gives this
    /// part back exactly.
    pub fn to_json(&self) -> (j: Json)
        ensures
            spec_part_from(j) == Some(self.deep_view()),
    {
        proof {
            reveal_strlit("text");
            reveal_strlit("inlineData");
            reveal_strlit("fileData");
            reveal_strlit("functionCall");
            reveal_strlit("mimeType");
            reveal_strlit("data");
            reveal_strlit("fileUri");
            reveal_strlit("name");
            reveal_strlit("args");
            assert("text"@.len() == 4);
            assert("inlineData"@.len() == 10);
            assert("fileData"@.len() == 8);
            assert("functionCall"@.len() == 12);
            assert("mimeType"@.len() == 8);
            assert("data"@.len() == 4);
            assert("fileUri"@.len() == 7);
            assert("name"@.len() == 4);
            assert("args"@.len() == 4);
            assert("name"@[0] == 'n' && "args"@[0] == 'a');
            assert("name"@ != "args"@);
        }
        match self {
            Part::Text(t) => {
                let mut entries: Vec<(String, Json)> = Vec::new();
                entries.push((String::from_str("text"), Json::Str(t.clone())));
                let j = Json::Obj(entries);
                assert(spec_part_from(j) == Some(self.deep_view()));
                j
            },
            Part::InlineData { mime_type, data } => {
                let mut inner: Vec<(String, Json)> = Vec::new();
                inner.push((String::from_str("mimeType"), Json::Str(mime_type.clone())));
                inner.push((String::from_str("data"), Json::Str(data.clone())));
                let ghost ientries: Seq<(String, Json)> = inner@;
                let inner_j = Json::Obj(inner);
                let mut entries: Vec<(String, Json)> = Vec::new();
                entries.push((String::from_str("inlineData"), inner_j));
                let j = Json::Obj(entries);
                proof {
                    crate::json::lemma_obj_get_skip_one(ientries, "data"@);
                    assert(ientries.drop_first() =~= seq![ientries[1]]);
                    assert(spec_part_from(j) == Some(self.deep_view()));
                }
                j
            },
            Part::FileData { mime_type, file_uri } => {
                let mut inner: Vec<(String, Json)> = Vec::new();
                inner.push((String::from_str("mimeType"), Json::Str(mime_type.clone())));
                inner.push((String::from_str("fileUri"), Json::Str(file_uri.clone())));
                let ghost ientries: Seq<(String, Json)> = inner@;
                let inner_j = Json::Obj(inner);
                let mut entries: Vec<(String, Json)> = Vec::new();
                entries.push((String::from_str("fileData"), inner_j));
                let j = Json::Obj(entries);
                proof {
                    crate::json::lemma_obj_get_skip_one(ientries, "fileUri"@);
                    assert(ientries.drop_first() =~= seq![ientries[1]]);
                    assert(spec_part_from(j) == Some(self.deep_view()));
                }
                j
            },
            Part::FunctionCall { name, args } => {
                let mut aentries: Vec<(String, Json)> = Vec::new();
                let n = args.len();
                let mut i: usize = 0;
                while i < n
                    invariant
                        i <= n,
                        n == args@.len(),
                        aentries@.len() == i,
                        forall|k: int| 0 <= k < i ==> (#[trigger] aentries@[k]).1 is Str,
                        forall|k: int|
                            0 <= k < i ==> (#[trigger] aentries@[k]).0@ == args@[k].0@
                                && spec_str_content(aentries@[k].1) == args@[k].1@,
                    decreases n - i,
                {
                    aentries.push((args[i].0.clone(), Json::Str(args[i].1.clone())));
                    i = i + 1;
                }
                proof {
                    assert(spec_args_from(aentries@) matches Some(s) && s =~= args.deep_view());
                }
                let mut inner: Vec<(String, Json)> = Vec::new();
                inner.push((String::from_str("name"), Json::Str(name.clone())));
                inner.push((String::from_str("args"), Json::Obj(aentries)));
                let ghost ientries: Seq<(String, Json)> = inner@;
                let inner_j = Json::Obj(inner);
                let mut entries: Vec<(String, Json)> = Vec::new();
                entries.push((String::from_str("functionCall"), inner_j));
                let j = Json::Obj(entries);
                proof {
                    crate::json::lemma_obj_get_skip_one(ientries, "args"@);
                    assert(ientries.drop_first() =~= seq![ientries[1]]);
                    assert(spec_part_from(j) == Some(self.deep_view()));
                }
                j
            },
        }
    }
}

impl Content {
    /// Encodes this content, leaving absent fields off the wire: the
    /// object binds `role` exactly when a role is set and `parts`
    /// exactly when parts are set.
    ///
    /// The contract is the round trip: decoding the encoding gives this
    /// content back exactly, so in particular the concatenation of its
    /// text parts survives an encode-decode cycle unchanged.
    pub fn to_json(&self) -> (j: Json)
        ensures
            spec_content_from(j) == Some(self.deep_view()),
            spec_get(j, "role"@) is Some <==> self.role is Some,
            spec_get(j, "parts"@) is Some <==> self.parts is Some,
    {
        proof {
            reveal_strlit("role");
            reveal_strlit("parts");
            reveal_strlit("user");
            reveal_strlit("model");
            assert("role"@.len() == 4);
            assert("parts"@.len() == 5);
            assert("user"@.len() == 4);
            assert("model"@.len() == 5);
        }
        let mut entries: Vec<(String, Json)> = Vec::new();
        match &self.role {
            Some(r) => {
                entries.push((String::from_str("role"), Json::Str(r.to_string())));
            },
            None => {},
        }
        match &self.parts {
            Some(parts) => {
                let mut pjs: Vec<Json> = Vec::new();
                let n = parts.len();
                let mut i: usize = 0;
                while i < n
                    invariant
                        i <= n,
                        n == parts@.len(),
                        pjs@.len() == i,
                        forall|k: int|
                            0 <= k < i ==> spec_part_from(#[trigger] pjs@[k]) == Some(
                                parts@[k].deep_view(),
                            ),
                    decreases n - i,
                {
                    pjs.push(parts[i].to_json());
                    i = i + 1;
                }
                proof {
                    assert(spec_parts_from(pjs@) matches Some(s) && s =~= parts.deep_view());
                }
                entries.push((String::from_str("parts"), Json::Arr(pjs)));
            },
            None => {},
        }
        let ghost es: Seq<(String, Json)> = entries@;
        let j = Json::Obj(entries);
        proof {
            if self.role is Some {
                if self.parts is Some {
                    crate::json::lemma_obj_get_skip_one(es, "parts"@);
                    assert(es.drop_first() =~= seq![es[1]]);
                    assert(spec_get(j, "role"@) == Some(es[0].1));
                    assert(spec_get(j, "parts"@) == Some(es[1].1));
                } else {
                    crate::json::lemma_obj_get_skip_one(es, "parts"@);
                    assert(es.drop_first() =~= Seq::<(String, Json)>::empty());
                    assert(spec_get(j, "role"@) == Some(es[0].1));
                    assert(spec_get(j, "parts"@) is None);
                }
            } else {
                if self.parts is Some {
                    crate::json::lemma_obj_get_skip_one(es, "role"@);
                    assert(es.drop_first() =~= Seq::<(String, Json)>::empty());
                    assert(spec_get(j, "parts"@) == Some(es[0].1));
                    assert(spec_get(j, "role"@) is None);
                } else {
                    assert(es =~= Seq::<(String, Json)>::empty());
                    assert(spec_get(j, "role"@) is None);
                    assert(spec_get(j, "parts"@) is None);
                }
            }
            assert(spec_content_from(j) == Some(self.deep_view()));
        }
        j
    }
}

/// Assembles a [`Content`] part by part.
pub struct ContentBuilder {
    pub content: Content,
}

impl Default for ContentBuilder {
    /// A builder starting from empty content.
    fn default() -> (r: ContentBuilder)
        ensures
            r.content.role is None,
            r.content.parts is None,
    {
        ContentBuilder { content: Content { role: None, parts: None } }
    }
}

impl ContentBuilder {
    /// Appends one text part.
    pub fn add_text_part(self, text: &str) -> (r: ContentBuilder)
        ensures
            r.content.role == self.content.role,
            r.content.deep_view().parts == match self.content.deep_view().parts {
                Some(ps) => Some(ps.push(PartView::Text(text@))),
                None => Some(seq![PartView::Text(text@)]),
            },
    {
        self.add_part(Part::Text(String::from_str(text)))
    }

    /// Appends one part.
    pub fn add_part(self, part: Part) -> (r: ContentBuilder)
        ensures
            r.content.role == self.content.role,
            r.content.deep_view().parts == match self.content.deep_view().parts {
                Some(ps) => Some(ps.push(part.deep_view())),
                None => Some(seq![part.deep_view()]),
            },
    {
        let mut this = self;
        match &mut this.content.parts {
            Some(parts) => {
                parts.push(part);
            },
            None => {
                let mut parts: Vec<Part> = Vec::new();
                parts.push(part);
                this.content.parts = Some(parts);
                assert(this.content.deep_view().parts matches Some(ps) && ps =~= seq![
                    part.deep_view(),
                ]);
            },
        }
        this
    }

    /// Sets the author role.
    pub fn role(self, role: Role) -> (r: ContentBuilder)
        ensures
            r.content.role == Some(role),
            r.content.deep_view().parts == self.content.deep_view().parts,
    {
        let mut this = self;
        this.content.role = Some(role);
        this
    }

    /// The assembled content.
    pub fn build(self) -> (r: Content)
        ensures
            r == self.content,
    {
        self.content
    }
}

} // verus!
