//! The relations of a generated entity, and the source text that declares
//! them.

use vstd::prelude::*;
use vstd::string::StringExecFns;

verus! {

/// The kind of a relation.
#[derive(Clone, Copy, Debug, PartialEq, Eq, Structural)]
pub enum RelationType {
    HasOne,
    HasMany,
    BelongsTo,
}

/// What a foreign key does when the row it refers to is updated or
/// deleted.
#[derive(Clone, Copy, Debug, PartialEq, Eq, Structural)]
pub enum ForeignKeyAction {
    Restrict,
    Cascade,
    SetNull,
    NoAction,
    SetDefault,
}

/// A relation of a table: the table it refers to, the columns on both
/// sides and the actions of its foreign key.
#[derive(Clone, Debug)]
pub struct Relation {
    pub ref_table: String,
    pub columns: Vec<String>,
    pub ref_columns: Vec<String>,
    pub rel_type: RelationType,
    pub on_update: Option<ForeignKeyAction>,
    pub on_delete: Option<ForeignKeyAction>,
    pub self_referencing: bool,
    pub num_suffix: usize,
    pub impl_related: bool,
}

/// The upper camel case form of a name, as `heck` computes it.
pub uninterp spec fn upper_camel_case(name: Seq<char>) -> Seq<char>;

/// The snake case form of a name, as `heck` computes it.
pub uninterp spec fn snake_case(name: Seq<char>) -> Seq<char>;

/// `heck::ToUpperCamelCase::to_upper_camel_case` on a string slice: the
/// upper camel case form of the name.
#[verifier::external_body]
fn to_upper_camel_case(name: &str) -> (r: String)
    ensures
        r@ == upper_camel_case(name@),
{
    heck::ToUpperCamelCase::to_upper_camel_case(name)
}

/// `heck::ToSnakeCase::to_snake_case` on a string slice: the snake case
/// form of the name.
#[verifier::external_body]
fn to_snake_case(name: &str) -> (r: String)
    ensures
        r@ == snake_case(name@),
{
    heck::ToSnakeCase::to_snake_case(name)
}

/// Whether a word is a keyword that can be written as a raw identifier.
pub open spec fn is_raw_keyword(word: Seq<char>) -> bool {
    ||| word == "as"@
    ||| word == "async"@
    ||| word == "await"@
    ||| word == "break"@
    ||| word == "const"@
    ||| word == "continue"@
    ||| word == "dyn"@
    ||| word == "else"@
    ||| word == "enum"@
    ||| word == "extern"@
    ||| word == "false"@
    ||| word == "fn"@
    ||| word == "for"@
    ||| word == "if"@
    ||| word == "impl"@
    ||| word == "in"@
    ||| word == "let"@
    ||| word == "loop"@
    ||| word == "match"@
    ||| word == "mod"@
    ||| word == "move"@
    ||| word == "mut"@
    ||| word == "pub"@
    ||| word == "ref"@
    ||| word == "return"@
    ||| word == "static"@
    ||| word == "struct"@
    ||| word == "super"@
    ||| word == "trait"@
    ||| word == "true"@
    ||| word == "type"@
    ||| word == "union"@
    ||| word == "unsafe"@
    ||| word == "use"@
    ||| word == "where"@
    ||| word == "while"@
    ||| word == "abstract"@
    ||| word == "become"@
    ||| word == "box"@
    ||| word == "do"@
    ||| word == "final"@
    ||| word == "macro"@
    ||| word == "override"@
    ||| word == "priv"@
    ||| word == "try"@
    ||| word == "typeof"@
    ||| word == "unsized"@
    ||| word == "virtual"@
    ||| word == "yield"@
}

/// Whether a word is a keyword that cannot be written as a raw identifier.
pub open spec fn is_path_keyword(word: Seq<char>) -> bool {
    ||| word == "crate"@
    ||| word == "Self"@
    ||| word == "self"@
}

/// A name that can stand as an identifier: a keyword is written raw, a
/// keyword that cannot be raw gets a trailing underscore, and any other
/// name stays as it is.
pub open spec fn escaped(name: Seq<char>) -> Seq<char> {
    if is_raw_keyword(name) {
        "r#"@ + name
    } else if is_path_keyword(name) {
        name + "_"@
    } else {
        name
    }
}

/// Whether two texts are the same.
fn same_text(a: &str, b: &str) -> (r: bool)
    ensures
        r == (a@ == b@),
{
    a.to_owned() == b.to_owned()
}

/// Whether a word is a keyword that can be written as a raw identifier.
pub fn raw_keyword(word: &str) -> (r: bool)
    ensures
        r == is_raw_keyword(word@),
{
    same_text(word, "as")
        || same_text(word, "async")
        || same_text(word, "await")
        || same_text(word, "break")
        || same_text(word, "const")
        || same_text(word, "continue")
        || same_text(word, "dyn")
        || same_text(word, "else")
        || same_text(word, "enum")
        || same_text(word, "extern")
        || same_text(word, "false")
        || same_text(word, "fn")
        || same_text(word, "for")
        || same_text(word, "if")
        || same_text(word, "impl")
        || same_text(word, "in")
        || same_text(word, "let")
        || same_text(word, "loop")
        || same_text(word, "match")
        || same_text(word, "mod")
        || same_text(word, "move")
        || same_text(word, "mut")
        || same_text(word, "pub")
        || same_text(word, "ref")
        || same_text(word, "return")
        || same_text(word, "static")
        || same_text(word, "struct")
        || same_text(word, "super")
        || same_text(word, "trait")
        || same_text(word, "true")
        || same_text(word, "type")
        || same_text(word, "union")
        || same_text(word, "unsafe")
        || same_text(word, "use")
        || same_text(word, "where")
        || same_text(word, "while")
        || same_text(word, "abstract")
        || same_text(word, "become")
        || same_text(word, "box")
        || same_text(word, "do")
        || same_text(word, "final")
        || same_text(word, "macro")
        || same_text(word, "override")
        || same_text(word, "priv")
        || same_text(word, "try")
        || same_text(word, "typeof")
        || same_text(word, "unsized")
        || same_text(word, "virtual")
        || same_text(word, "yield")
}

/// Whether a word is a keyword that cannot be written as a raw identifier.
pub fn path_keyword(word: &str) -> (r: bool)
    ensures
        r == is_path_keyword(word@),
{
    same_text(word, "crate") || same_text(word, "Self") || same_text(word, "self")
}

/// A name that can stand as an identifier.
pub fn escape_rust_keyword(name: &str) -> (r: String)
    ensures
        r@ == escaped(name@),
{
    if raw_keyword(name) {
        let r = String::from_str("r#").concat(name);
        assert(r@ =~= "r#"@ + name@);
        r
    } else if path_keyword(name) {
        let r = name.to_owned().concat("_");
        assert(r@ =~= name@ + "_"@);
        r
    } else {
        name.to_owned()
    }
}

/// The decimal digit of a number below ten.
pub open spec fn digit(d: nat) -> char {
    if d == 0 {
        '0'
    } else if d == 1 {
        '1'
    } else if d == 2 {
        '2'
    } else if d == 3 {
        '3'
    } else if d == 4 {
        '4'
    } else if d == 5 {
        '5'
    } else if d == 6 {
        '6'
    } else if d == 7 {
        '7'
    } else if d == 8 {
        '8'
    } else {
        '9'
    }
}

/// The decimal digits of a number, most significant first; zero is `0`.
pub open spec fn decimal(n: nat) -> Seq<char>
    decreases n,
{
    if n < 10 {
        seq![digit(n)]
    } else {
        decimal(n / 10).push(digit(n % 10))
    }
}

/// The text of one decimal digit.
fn digit_text(d: usize) -> (r: &'static str)
    requires
        d < 10,
    ensures
        r@ == seq![digit(d as nat)],
{
    proof {
        reveal_strlit("0");
        reveal_strlit("1");
        reveal_strlit("2");
        reveal_strlit("3");
        reveal_strlit("4");
        reveal_strlit("5");
        reveal_strlit("6");
        reveal_strlit("7");
        reveal_strlit("8");
        reveal_strlit("9");
    }
    let r = if d == 0 {
        "0"
    } else if d == 1 {
        "1"
    } else if d == 2 {
        "2"
    } else if d == 3 {
        "3"
    } else if d == 4 {
        "4"
    } else if d == 5 {
        "5"
    } else if d == 6 {
        "6"
    } else if d == 7 {
        "7"
    } else if d == 8 {
        "8"
    } else {
        "9"
    };
    assert(r@ =~= seq![digit(d as nat)]);
    r
}

/// The decimal text of a number.
pub fn decimal_text(n: usize) -> (r: String)
    ensures
        r@ == decimal(n as nat),
    decreases n,
{
    if n < 10 {
        String::from_str(digit_text(n))
    } else {
        let head = decimal_text(n / 10);
        let r = head.concat(digit_text(n % 10));
        assert(r@ =~= decimal((n / 10) as nat).push(digit((n % 10) as nat)));
        r
    }
}

/// The texts joined by a separator.
pub open spec fn joined(parts: Seq<Seq<char>>, sep: Seq<char>) -> Seq<char>
    decreases parts.len(),
{
    if parts.len() == 0 {
        Seq::empty()
    } else if parts.len() == 1 {
        parts[0]
    } else {
        joined(parts.drop_last(), sep) + sep + parts.last()
    }
}

/// The views of a list of texts.
pub open spec fn texts(parts: Seq<String>) -> Seq<Seq<char>> {
    parts.map_values(|s: String| s@)
}

/// Join the texts by a separator.
pub fn join(parts: &Vec<String>, sep: &str) -> (r: String)
    ensures
        r@ == joined(texts(parts@), sep@),
{
    let mut out = String::new();
    let mut i: usize = 0;
    while i < parts.len()
        invariant
            i <= parts.len(),
            out@ == joined(texts(parts@).take(i as int), sep@),
        decreases parts.len() - i,
    {
        proof {
            let next = texts(parts@).take(i + 1);
            assert(next.drop_last() =~= texts(parts@).take(i as int));
            assert(next.last() == parts@[i as int]@);
        }
        if i > 0 {
            out = out.concat(sep);
        }
        out = out.concat(parts[i].as_str());
        proof {
            let next = texts(parts@).take(i + 1);
            if i == 0 {
                assert(out@ =~= next[0]);
            } else {
                assert(out@ =~= joined(next.drop_last(), sep@) + sep@ + next.last());
            }
        }
        i += 1;
    }
    assert(texts(parts@).take(parts.len() as int) =~= texts(parts@));
    out
}

/// A list of paths as one expression: a single path as it is, several as a
/// tuple.
pub open spec fn punctuated(parts: Seq<Seq<char>>) -> Seq<char> {
    if parts.len() <= 1 {
        joined(parts, ", "@)
    } else {
        "("@ + joined(parts, ", "@) + ")"@
    }
}

/// A list of paths as one expression.
pub fn punctuate(parts: &Vec<String>) -> (r: String)
    ensures
        r@ == punctuated(texts(parts@)),
{
    let inner = join(parts, ", ");
    if parts.len() <= 1 {
        inner
    } else {
        let r = String::from_str("(").concat(inner.as_str()).concat(")");
        assert(r@ =~= "("@ + joined(texts(parts@), ", "@) + ")"@);
        r
    }
}

/// Each name in upper camel case after a prefix.
pub open spec fn prefixed_camel(prefix: Seq<char>, names: Seq<Seq<char>>) -> Seq<Seq<char>> {
    names.map_values(|n: Seq<char>| prefix + upper_camel_case(n))
}

/// Each name in upper camel case after a prefix.
pub fn prefix_camel(prefix: &str, names: &Vec<String>) -> (r: Vec<String>)
    ensures
        texts(r@) == prefixed_camel(prefix@, texts(names@)),
{
    let mut out: Vec<String> = Vec::new();
    let mut i: usize = 0;
    while i < names.len()
        invariant
            i <= names.len(),
            out@.len() == i,
            forall|j: int|
                0 <= j < i ==> (#[trigger] out@[j])@ == prefix@ + upper_camel_case(names@[j]@),
        decreases names.len() - i,
    {
        let camel = to_upper_camel_case(names[i].as_str());
        out.push(String::from_str(prefix).concat(camel.as_str()));
        i += 1;
    }
    assert(texts(out@) =~= prefixed_camel(prefix@, texts(names@)));
    out
}

impl ForeignKeyAction {
    /// The name of the action as its variant is written.
    pub open spec fn spec_variant_name(self) -> Seq<char> {
        match self {
            ForeignKeyAction::Restrict => "Restrict"@,
            ForeignKeyAction::Cascade => "Cascade"@,
            ForeignKeyAction::SetNull => "SetNull"@,
            ForeignKeyAction::NoAction => "NoAction"@,
            ForeignKeyAction::SetDefault => "SetDefault"@,
        }
    }

    /// The name of the action as its variant is written.
    pub fn variant_name(&self) -> (r: &'static str)
        ensures
            r@ == self.spec_variant_name(),
    {
        match self {
            ForeignKeyAction::Restrict => "Restrict",
            ForeignKeyAction::Cascade => "Cascade",
            ForeignKeyAction::SetNull => "SetNull",
            ForeignKeyAction::NoAction => "NoAction",
            ForeignKeyAction::SetDefault => "SetDefault",
        }
    }
}

impl RelationType {
    /// The name of the function that declares a relation of this kind.
    pub open spec fn spec_name(self) -> Seq<char> {
        match self {
            RelationType::HasOne => "has_one"@,
            RelationType::HasMany => "has_many"@,
            RelationType::BelongsTo => "belongs_to"@,
        }
    }
}

impl Relation {
    /// The name of the variant of the relation: `SelfRef` for a relation of
    /// a table to itself, else the referred table in upper camel case;
    /// followed by the number of the relation where that is not zero.
    pub open spec fn spec_enum_name(&self) -> Seq<char> {
        let name = if self.self_referencing {
            "SelfRef"@
        } else {
            upper_camel_case(self.ref_table@)
        };
        if self.num_suffix > 0 {
            name + decimal(self.num_suffix as nat)
        } else {
            name
        }
    }

    /// The name of the module of the referred table: the table in snake
    /// case, escaped where that is a keyword, and none for a relation of a
    /// table to itself.
    pub open spec fn spec_module_name(&self) -> Option<Seq<char>> {
        if self.self_referencing {
            None
        } else {
            Some(escaped(snake_case(self.ref_table@)))
        }
    }

    /// The path from the entity's module to the module of the referred
    /// table, with its trailing separator; empty for a relation of a table
    /// to itself.
    pub open spec fn spec_module_path(&self) -> Seq<char> {
        match self.spec_module_name() {
            Some(m) => "super::"@ + m + "::"@,
            None => Seq::empty(),
        }
    }

    /// The expression that defines the relation.
    pub open spec fn spec_def(&self) -> Seq<char> {
        let ref_entity = self.spec_module_path() + "Entity"@;
        match self.rel_type {
            RelationType::BelongsTo => "Entity::belongs_to("@ + ref_entity + ").from("@
                + punctuated(prefixed_camel("Column::"@, texts(self.columns@))) + ").to("@
                + punctuated(
                prefixed_camel(self.spec_module_path() + "Column::"@, texts(self.ref_columns@)),
            ) + ").into()"@,
            _ => "Entity::"@ + self.rel_type.spec_name() + "("@ + ref_entity + ").into()"@,
        }
    }

    /// One action of the foreign key as a member of the attribute, or
    /// nothing where there is no action.
    pub open spec fn spec_action(key: Seq<char>, action: Option<ForeignKeyAction>) -> Seq<char> {
        match action {
            Some(a) => key + " = \""@ + a.spec_variant_name() + "\", "@,
            None => Seq::empty(),
        }
    }

    /// The attribute that declares the relation.
    pub open spec fn spec_attrs(&self) -> Seq<char> {
        let ref_entity = self.spec_module_path() + "Entity"@;
        match self.rel_type {
            RelationType::BelongsTo => "#[sea_orm(belongs_to = \""@ + ref_entity
                + "\", from = \""@ + punctuated(
                prefixed_camel("Column::"@, texts(self.columns@)),
            ) + "\", to = \""@ + punctuated(
                prefixed_camel(self.spec_module_path() + "Column::"@, texts(self.ref_columns@)),
            ) + "\", "@ + Self::spec_action("on_update"@, self.on_update) + Self::spec_action(
                "on_delete"@,
                self.on_delete,
            ) + ")]"@,
            _ => "#[sea_orm("@ + self.rel_type.spec_name() + " = \""@ + ref_entity + "\")]"@,
        }
    }

    /// The name of the variant of the relation.
    pub fn get_enum_name(&self) -> (r: String)
        ensures
            r@ == self.spec_enum_name(),
    {
        let name = if self.self_referencing {
            String::from_str("SelfRef")
        } else {
            to_upper_camel_case(self.ref_table.as_str())
        };
        if self.num_suffix > 0 {
            name.concat(decimal_text(self.num_suffix).as_str())
        } else {
            name
        }
    }

    /// The name of the module of the referred table.
    pub fn get_module_name(&self) -> (r: Option<String>)
        ensures
            match r {
                Some(m) => self.spec_module_name() == Some(m@),
                None => self.spec_module_name() is None,
            },
    {
        if self.self_referencing {
            None
        } else {
            Some(escape_rust_keyword(to_snake_case(self.ref_table.as_str()).as_str()))
        }
    }

    /// The path to the module of the referred table.
    pub fn get_module_path(&self) -> (r: String)
        ensures
            r@ == self.spec_module_path(),
    {
        match self.get_module_name() {
            Some(m) => {
                let r = String::from_str("super::").concat(m.as_str()).concat("::");
                assert(r@ =~= "super::"@ + m@ + "::"@);
                r
            },
            None => String::new(),
        }
    }

    /// The name of the function that declares the relation.
    pub fn get_rel_type(&self) -> (r: &'static str)
        ensures
            r@ == self.rel_type.spec_name(),
    {
        match self.rel_type {
            RelationType::HasOne => "has_one",
            RelationType::HasMany => "has_many",
            RelationType::BelongsTo => "belongs_to",
        }
    }

    /// The columns of the relation in upper camel case.
    pub fn get_column_camel_case(&self) -> (r: Vec<String>)
        ensures
            texts(r@) == prefixed_camel(Seq::empty(), texts(self.columns@)),
    {
        let r = prefix_camel("", &self.columns);
        proof {
            reveal_strlit("");
            assert(""@ =~= Seq::<char>::empty());
        }
        r
    }

    /// The referred columns of the relation in upper camel case.
    pub fn get_ref_column_camel_case(&self) -> (r: Vec<String>)
        ensures
            texts(r@) == prefixed_camel(Seq::empty(), texts(self.ref_columns@)),
    {
        let r = prefix_camel("", &self.ref_columns);
        proof {
            reveal_strlit("");
            assert(""@ =~= Seq::<char>::empty());
        }
        r
    }

    /// The name of an action of a foreign key.
    pub fn get_foreign_key_action(action: &ForeignKeyAction) -> (r: String)
        ensures
            r@ == action.spec_variant_name(),
    {
        String::from_str(action.variant_name())
    }

    /// The columns of both sides as expressions: the paths of the columns
    /// of this table and the paths of the referred columns.
    pub fn get_src_ref_columns(&self) -> (r: (String, String))
        ensures
            r.0@ == punctuated(prefixed_camel("Column::"@, texts(self.columns@))),
            r.1@ == punctuated(
                prefixed_camel(self.spec_module_path() + "Column::"@, texts(self.ref_columns@)),
            ),
    {
        let from = punctuate(&prefix_camel("Column::", &self.columns));
        let ref_prefix = self.get_module_path().concat("Column::");
        let to = punctuate(&prefix_camel(ref_prefix.as_str(), &self.ref_columns));
        (from, to)
    }

    /// The expression that defines the relation, as source text.
    pub fn get_def(&self) -> (r: String)
        ensures
            r@ == self.spec_def(),
    {
        let ref_entity = self.get_module_path().concat("Entity");
        match self.rel_type {
            RelationType::BelongsTo => {
                let (from, to) = self.get_src_ref_columns();
                let r = String::from_str("Entity::belongs_to(").concat(ref_entity.as_str()).concat(
                    ").from(",
                ).concat(from.as_str()).concat(").to(").concat(to.as_str()).concat(").into()");
                assert(r@ =~= self.spec_def());
                r
            },
            _ => {
                let r = String::from_str("Entity::").concat(self.get_rel_type()).concat("(").concat(
                    ref_entity.as_str(),
                ).concat(").into()");
                assert(r@ =~= self.spec_def());
                r
            },
        }
    }

    /// One action of the foreign key as a member of the attribute.
    fn action_text(key: &str, action: &Option<ForeignKeyAction>) -> (r: String)
        ensures
            r@ == Self::spec_action(key@, *action),
    {
        match action {
            Some(a) => {
                let r = String::from_str(key).concat(" = \"").concat(a.variant_name()).concat(
                    "\", ",
                );
                assert(r@ =~= key@ + " = \""@ + a.spec_variant_name() + "\", "@);
                r
            },
            None => String::new(),
        }
    }

    /// The attribute that declares the relation, as source text.
    pub fn get_attrs(&self) -> (r: String)
        ensures
            r@ == self.spec_attrs(),
    {
        let ref_entity = self.get_module_path().concat("Entity");
        match self.rel_type {
            RelationType::BelongsTo => {
                let (from, to) = self.get_src_ref_columns();
                let on_update = Self::action_text("on_update", &self.on_update);
                let on_delete = Self::action_text("on_delete", &self.on_delete);
                let r = String::from_str("#[sea_orm(belongs_to = \"").concat(
                    ref_entity.as_str(),
                ).concat("\", from = \"").concat(from.as_str()).concat("\", to = \"").concat(
                    to.as_str(),
                ).concat("\", ").concat(on_update.as_str()).concat(on_delete.as_str()).concat(")]");
                assert(r@ =~= self.spec_attrs());
                r
            },
            _ => {
                let r = String::from_str("#[sea_orm(").concat(self.get_rel_type()).concat(
                    " = \"",
                ).concat(ref_entity.as_str()).concat("\")]");
                assert(r@ =~= self.spec_attrs());
                r
            },
        }
    }

    /// The relation that a foreign key declares: it belongs to the
    /// referred table.
    pub fn from_foreign_key(
        ref_table: String,
        columns: Vec<String>,
        ref_columns: Vec<String>,
        on_delete: Option<ForeignKeyAction>,
        on_update: Option<ForeignKeyAction>,
    ) -> (r: Relation)
        ensures
            r.ref_table == ref_table,
            r.columns == columns,
            r.ref_columns == ref_columns,
            r.rel_type == RelationType::BelongsTo,
            r.on_delete == on_delete,
            r.on_update == on_update,
            !r.self_referencing,
            r.num_suffix == 0,
            r.impl_related,
    {
        Relation {
            ref_table,
            columns,
            ref_columns,
            rel_type: RelationType::BelongsTo,
            on_delete,
            on_update,
            self_referencing: false,
            num_suffix: 0,
            impl_related: true,
        }
    }
}

} // verus!
