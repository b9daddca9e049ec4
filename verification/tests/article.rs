use json_api::codec::JsonCodec;
use json_api::substrate::parse_text;
use json_api::{
    Attributes, AttributesError, Document, GenericObject, Identifier, JsonValue, Link, Links,
    OptionalVec, Relationship, ResourceObject, StringMap,
};

#[derive(Debug, PartialEq, Clone)]
pub struct Article {
    title: String,
}

impl Attributes for Article {
    fn kind() -> String {
        "articles".into()
    }

    fn links(id: &str) -> Option<Links> {
        let mut links = Links::new();
        links.insert("self".into(), Link::Url(format!("/articles/{}", id)));
        Some(links)
    }

    fn to_map(&self) -> StringMap<JsonValue> {
        let mut m = StringMap::new();
        m.insert("title".into(), JsonValue::Str(self.title.clone()));
        m
    }

    fn from_map(m: &StringMap<JsonValue>) -> Result<Article, AttributesError> {
        match m.get("title") {
            Some(JsonValue::Str(s)) => Ok(Article { title: s.clone() }),
            _ => Err(AttributesError { message: "missing field `title`".into() }),
        }
    }
}

impl Article {
    fn add_author(article: &mut ResourceObject<Article>, author: &ResourceObject<People>) {
        let mut links = Links::new();
        links.insert(
            "self".into(),
            Link::Url(format!("/articles/{}/relationships/author", article.id)),
        );
        links.insert("related".into(), Link::Url(format!("/articles/{}/author", article.id)));
        let r = Relationship {
            links: Some(links),
            data: OptionalVec::One(Some(Identifier::from_resource_ref(author))),
            ..Default::default()
        };
        article.add_relationship("author".into(), r);
    }

    fn add_comments(article: &mut ResourceObject<Article>, comments: &[ResourceObject<Comment>]) {
        let mut links = Links::new();
        links.insert(
            "self".into(),
            Link::Url(format!("/articles/{}/relationships/comments", article.id)),
        );
        links.insert("related".into(), Link::Url(format!("/articles/{}/comments", article.id)));
        let r = Relationship {
            links: Some(links),
            data: OptionalVec::Many(
                comments.iter().map(Identifier::from_resource_ref).collect(),
            ),
            ..Default::default()
        };
        article.add_relationship("comments".into(), r);
    }
}

#[derive(Debug, PartialEq, Clone)]
pub struct People {
    first_name: String,
    last_name: String,
    contact: String,
}

impl Attributes for People {
    fn kind() -> String {
        "people".into()
    }

    fn links(id: &str) -> Option<Links> {
        let mut links = Links::new();
        links.insert("self".into(), Link::Url(format!("/people/{}", id)));
        Some(links)
    }

    fn to_map(&self) -> StringMap<JsonValue> {
        let mut m = StringMap::new();
        m.insert("first-name".into(), JsonValue::Str(self.first_name.clone()));
        m.insert("last-name".into(), JsonValue::Str(self.last_name.clone()));
        m.insert("contact".into(), JsonValue::Str(self.contact.clone()));
        m
    }

    fn from_map(m: &StringMap<JsonValue>) -> Result<People, AttributesError> {
        match (m.get("first-name"), m.get("last-name"), m.get("contact")) {
            (
                Some(JsonValue::Str(first)),
                Some(JsonValue::Str(last)),
                Some(JsonValue::Str(contact)),
            ) => Ok(People {
                first_name: first.clone(),
                last_name: last.clone(),
                contact: contact.clone(),
            }),
            _ => Err(AttributesError { message: "missing person field".into() }),
        }
    }
}

#[derive(Debug, PartialEq, Clone)]
pub struct Comment {
    body: String,
}

impl Attributes for Comment {
    fn kind() -> String {
        "comments".into()
    }

    fn links(id: &str) -> Option<Links> {
        let mut links = Links::new();
        links.insert("self".into(), Link::Url(format!("/comments/{}", id)));
        Some(links)
    }

    fn to_map(&self) -> StringMap<JsonValue> {
        let mut m = StringMap::new();
        m.insert("body".into(), JsonValue::Str(self.body.clone()));
        m
    }

    fn from_map(m: &StringMap<JsonValue>) -> Result<Comment, AttributesError> {
        match m.get("body") {
            Some(JsonValue::Str(s)) => Ok(Comment { body: s.clone() }),
            _ => Err(AttributesError { message: "missing field `body`".into() }),
        }
    }
}

impl Comment {
    fn add_author(comment: &mut ResourceObject<Comment>, author: &ResourceObject<People>) {
        let relationship = Relationship {
            data: OptionalVec::One(Some(Identifier::from_resource_ref(author))),
            ..Default::default()
        };
        comment.add_relationship("author".into(), relationship);
    }
}

const ARTICLE_JSON: &str = r#"{
  "data": {
    "id": "1",
    "type": "articles",
    "attributes": { "title": "JSON:API is kind of strange in rust" },
    "relationships": {
      "author": {
        "links": {
          "self": "/articles/1/relationships/author",
          "related": "/articles/1/author"
        },
        "data": { "id": "9", "type": "people" }
      },
      "comments": {
        "links": {
          "self": "/articles/1/relationships/comments",
          "related": "/articles/1/comments"
        },
        "data": [
          { "id": "5", "type": "comments" },
          { "id": "12", "type": "comments" }
        ]
      }
    },
    "links": { "self": "/articles/1" }
  },
  "included": [
    {
      "id": "5",
      "type": "comments",
      "attributes": { "body": "First!" },
      "relationships": { "author": { "data": { "id": "2", "type": "people" } } },
      "links": { "self": "/comments/5" }
    },
    {
      "id": "12",
      "type": "comments",
      "attributes": { "body": "I like XML better" },
      "relationships": { "author": { "data": { "id": "9", "type": "people" } } },
      "links": { "self": "/comments/12" }
    },
    {
      "id": "9",
      "type": "people",
      "attributes": {
        "first-name": "kitty",
        "last-name": "cat",
        "contact": "kitty@cat.space"
      },
      "links": { "self": "/people/9" }
    }
  ]
}"#;

#[test]
fn test() {
    let author = ResourceObject::new(
        "9".into(),
        Some(People {
            first_name: "kitty".into(),
            last_name: "cat".into(),
            contact: "kitty@cat.space".into(),
        }),
    );
    let person_2 = ResourceObject::<People>::new("2".into(), None);

    let mut comment_5 = ResourceObject::new("5".into(), Some(Comment { body: "First!".into() }));
    Comment::add_author(&mut comment_5, &person_2);
    let mut comment_12 = ResourceObject::new(
        "12".into(),
        Some(Comment { body: "I like XML better".into() }),
    );
    Comment::add_author(&mut comment_12, &author);

    let comments = [comment_5, comment_12];

    let mut article = ResourceObject::new(
        "1".into(),
        Some(Article { title: "JSON:API is kind of strange in rust".into() }),
    );
    Article::add_author(&mut article, &author);
    Article::add_comments(&mut article, &comments);

    let mut included = Vec::new();
    included.extend(comments.into_iter().map(GenericObject::from_resource));
    included.push(GenericObject::from_resource(author));

    let document = Document {
        data: OptionalVec::One(Some(GenericObject::from_resource(article))),
        included: Some(included),
        ..Default::default()
    };

    // The primary data must be a single object, not an array.
    let rendered = String::from_utf8(document.encode().to_text()).unwrap();
    assert!(rendered.starts_with("{\"data\":{"));

    // Parsing normalizes every object to key order on both sides, so the
    // comparison does not depend on field layout.
    let v1 = parse_text(&rendered).unwrap();
    let v2 = parse_text(ARTICLE_JSON).unwrap();
    assert_eq!(v1, v2);

    // The document reads back identically.
    let document2 = Document::decode(&v1).unwrap();
    let roundtrip = String::from_utf8(document2.encode().to_text()).unwrap();
    let v3 = parse_text(&roundtrip).unwrap();
    assert_eq!(v2, v3);
}
