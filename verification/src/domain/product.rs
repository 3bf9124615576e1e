use vstd::prelude::*;
use vstd::string::*;

use super::text::{check_text, lemma_text_errors_law, text_errors, white_space};
use vstd::utf8::encode_utf8;
use super::timestamp::Timestamp;
use super::value_objects::{is_random_uuid, Price, PriceRange, PriceValue, ProductId};

verus! {

/// A product in the catalogue.
#[derive(Clone, Debug)]
pub struct Product {
    pub id: ProductId,
    pub name: String,
    pub description: String,
    pub price: Price,
    pub category: String,
    pub created_at: Timestamp,
    pub updated_at: Timestamp,
}

impl Product {
    /// A new product with a fresh random identifier, created and last updated
    /// at `now`, the clock reading that the caller took (`Timestamp::now`).
    pub fn new(
        name: String,
        description: String,
        price: Price,
        category: String,
        now: Timestamp,
    ) -> (p: Self)
        ensures
            is_random_uuid(p.id.0),
            p.name == name,
            p.description == description,
            p.price == price,
            p.category == category,
            p.created_at == now,
            p.updated_at == now,
    {
        Product {
            id: ProductId::new(),
            name,
            description,
            price,
            category,
            created_at: now,
            updated_at: now,
        }
    }

    /// Renames the product and stamps it as updated at `now`.
    pub fn update_name(&mut self, name: String, now: Timestamp)
        ensures
            final(self).name == name,
            final(self).id == old(self).id,
            final(self).description == old(self).description,
            final(self).price == old(self).price,
            final(self).category == old(self).category,
            final(self).created_at == old(self).created_at,
            final(self).updated_at == now,
    {
        self.name = name;
        self.updated_at = now;
    }

    /// Replaces the description and stamps the product as updated at `now`.
    pub fn update_description(&mut self, description: String, now: Timestamp)
        ensures
            final(self).description == description,
            final(self).id == old(self).id,
            final(self).name == old(self).name,
            final(self).price == old(self).price,
            final(self).category == old(self).category,
            final(self).created_at == old(self).created_at,
            final(self).updated_at == now,
    {
        self.description = description;
        self.updated_at = now;
    }

    /// Replaces the price and stamps the product as updated at `now`.
    pub fn update_price(&mut self, price: Price, now: Timestamp)
        ensures
            final(self).price == price,
            final(self).id == old(self).id,
            final(self).name == old(self).name,
            final(self).description == old(self).description,
            final(self).category == old(self).category,
            final(self).created_at == old(self).created_at,
            final(self).updated_at == now,
    {
        self.price = price;
        self.updated_at = now;
    }

    /// Moves the product to another category and stamps it as updated at `now`.
    pub fn update_category(&mut self, category: String, now: Timestamp)
        ensures
            final(self).category == category,
            final(self).id == old(self).id,
            final(self).name == old(self).name,
            final(self).description == old(self).description,
            final(self).price == old(self).price,
            final(self).created_at == old(self).created_at,
            final(self).updated_at == now,
    {
        self.category = category;
        self.updated_at = now;
    }
}

/// The messages that a price earns: one when it is negative, one when it is
/// above 999,999.99.
pub open spec fn price_errors(price: PriceValue) -> Seq<Seq<char>> {
    match price.range {
        PriceRange::Negative => seq!["Price cannot be negative"@],
        PriceRange::AboveMaximum => seq!["Price cannot exceed 999,999.99"@],
        PriceRange::Allowed => Seq::empty(),
    }
}

/// Appends to `errors` the messages that `price` earns.
fn check_price(errors: &mut Vec<String>, price: PriceValue)
    ensures
        final(errors).deep_view() == old(errors).deep_view() + price_errors(price),
{
    let ghost start = errors.deep_view();
    match price.range {
        PriceRange::Negative => errors.push(String::from_str("Price cannot be negative")),
        PriceRange::AboveMaximum => errors.push(
            String::from_str("Price cannot exceed 999,999.99"),
        ),
        PriceRange::Allowed => {},
    }
    assert(errors.deep_view() =~= start + price_errors(price));
}

/// The messages that a product's name earns.
pub open spec fn name_errors(name: Seq<char>) -> Seq<Seq<char>> {
    text_errors(name, 100, "Name cannot be empty"@, "Name cannot exceed 100 characters"@)
}

/// The messages that a product's description earns.
pub open spec fn description_errors(description: Seq<char>) -> Seq<Seq<char>> {
    text_errors(
        description,
        500,
        "Description cannot be empty"@,
        "Description cannot exceed 500 characters"@,
    )
}

/// The messages that a product's category earns.
pub open spec fn category_errors(category: Seq<char>) -> Seq<Seq<char>> {
    text_errors(
        category,
        50,
        "Category cannot be empty"@,
        "Category cannot exceed 50 characters"@,
    )
}

fn check_name(errors: &mut Vec<String>, name: &str)
    ensures
        final(errors).deep_view() == old(errors).deep_view() + name_errors(name@),
{
    check_text(errors, name, 100, "Name cannot be empty", "Name cannot exceed 100 characters");
}

fn check_description(errors: &mut Vec<String>, description: &str)
    ensures
        final(errors).deep_view() == old(errors).deep_view() + description_errors(description@),
{
    check_text(
        errors,
        description,
        500,
        "Description cannot be empty",
        "Description cannot exceed 500 characters",
    );
}

fn check_category(errors: &mut Vec<String>, category: &str)
    ensures
        final(errors).deep_view() == old(errors).deep_view() + category_errors(category@),
{
    check_text(
        errors,
        category,
        50,
        "Category cannot be empty",
        "Category cannot exceed 50 characters",
    );
}

/// What a client sends to create a product.
#[derive(Clone, Debug)]
pub struct CreateProductRequest {
    pub name: String,
    pub description: String,
    pub price: PriceValue,
    pub category: String,
}

impl CreateProductRequest {
    /// Every message the request earns, field by field in the order name,
    /// description, price, category.
    pub open spec fn errors(&self) -> Seq<Seq<char>> {
        name_errors(self.name@) + description_errors(self.description@) + price_errors(self.price)
            + category_errors(self.category@)
    }

    /// Accepts the request when it earns no message; otherwise gives them all.
    pub fn validate(&self) -> (r: Result<(), Vec<String>>)
        ensures
            r is Ok <==> self.errors().len() == 0,
            r matches Err(errors) ==> errors.deep_view() == self.errors(),
    {
        let mut errors: Vec<String> = Vec::new();
        assert(errors.deep_view() =~= Seq::<Seq<char>>::empty());
        check_name(&mut errors, self.name.as_str());
        check_description(&mut errors, self.description.as_str());
        check_price(&mut errors, self.price);
        check_category(&mut errors, self.category.as_str());
        assert(errors.deep_view() =~= self.errors());
        if errors.len() == 0 {
            Ok(())
        } else {
            Err(errors)
        }
    }
}

/// What a client sends to change a product: only the fields it names change.
#[derive(Clone, Debug)]
pub struct UpdateProductRequest {
    pub name: Option<String>,
    pub description: Option<String>,
    pub price: Option<PriceValue>,
    pub category: Option<String>,
}

impl UpdateProductRequest {
    /// Whether the request names no field at all.
    pub open spec fn is_empty(&self) -> bool {
        &&& self.name is None
        &&& self.description is None
        &&& self.price is None
        &&& self.category is None
    }

    /// Every message the request earns: those of each field it names, in the
    /// order name, description, price, category, then one when it names none.
    pub open spec fn errors(&self) -> Seq<Seq<char>> {
        (match self.name {
            Some(name) => name_errors(name@),
            None => Seq::empty(),
        }) + (match self.description {
            Some(description) => description_errors(description@),
            None => Seq::empty(),
        }) + (match self.price {
            Some(price) => price_errors(price),
            None => Seq::empty(),
        }) + (match self.category {
            Some(category) => category_errors(category@),
            None => Seq::empty(),
        }) + (if self.is_empty() {
            seq!["At least one field must be provided for update"@]
        } else {
            Seq::empty()
        })
    }

    /// Accepts the request when it earns no message; otherwise gives them all.
    pub fn validate(&self) -> (r: Result<(), Vec<String>>)
        ensures
            r is Ok <==> self.errors().len() == 0,
            r matches Err(errors) ==> errors.deep_view() == self.errors(),
    {
        let mut errors: Vec<String> = Vec::new();
        assert(errors.deep_view() =~= Seq::<Seq<char>>::empty());
        if let Some(name) = &self.name {
            check_name(&mut errors, name.as_str());
        }
        if let Some(description) = &self.description {
            check_description(&mut errors, description.as_str());
        }
        if let Some(price) = self.price {
            check_price(&mut errors, price);
        }
        if let Some(category) = &self.category {
            check_category(&mut errors, category.as_str());
        }
        if self.name.is_none() && self.description.is_none() && self.price.is_none()
            && self.category.is_none() {
            errors.push(String::from_str("At least one field must be provided for update"));
        }
        assert(errors.deep_view() =~= self.errors());
        if errors.len() == 0 {
            Ok(())
        } else {
            Err(errors)
        }
    }
}

/// The messages that validation can give are all different: they differ in
/// length, but for the two of 24 characters, which differ in the first.
proof fn lemma_messages_distinct()
    ensures
        "Name cannot be empty"@.len() == 20,
        "Name cannot exceed 100 characters"@.len() == 33,
        "Description cannot be empty"@.len() == 27,
        "Description cannot exceed 500 characters"@.len() == 40,
        "Price cannot be negative"@.len() == 24,
        "Price cannot exceed 999,999.99"@.len() == 30,
        "Category cannot be empty"@.len() == 24,
        "Category cannot exceed 50 characters"@.len() == 36,
        "At least one field must be provided for update"@.len() == 46,
        "Price cannot be negative"@ != "Category cannot be empty"@,
{
    reveal_strlit("Name cannot be empty");
    reveal_strlit("Name cannot exceed 100 characters");
    reveal_strlit("Description cannot be empty");
    reveal_strlit("Description cannot exceed 500 characters");
    reveal_strlit("Price cannot be negative");
    reveal_strlit("Price cannot exceed 999,999.99");
    reveal_strlit("Category cannot be empty");
    reveal_strlit("Category cannot exceed 50 characters");
    reveal_strlit("At least one field must be provided for update");
    assert("Price cannot be negative"@[0] != "Category cannot be empty"@[0]);
}

/// Whether validation refused the request and reported the message `m`.
pub open spec fn reports(r: Result<(), Vec<String>>, m: Seq<char>) -> bool {
    r matches Err(errors) && errors.deep_view().contains(m)
}

/// A price earns the negative message exactly when it is negative and the
/// maximum message exactly when it is above the maximum.
proof fn lemma_price_errors_law(price: PriceValue, m: Seq<char>)
    ensures
        price_errors(price).contains(m) <==> ((m == "Price cannot be negative"@ && price.range
            == PriceRange::Negative) || (m == "Price cannot exceed 999,999.99"@ && price.range
            == PriceRange::AboveMaximum)),
        price_errors(price).len() == (if price.range == PriceRange::Allowed {
            0nat
        } else {
            1nat
        }),
{
    assert(seq!["Price cannot be negative"@][0] == "Price cannot be negative"@);
    assert(seq!["Price cannot exceed 999,999.99"@][0] == "Price cannot exceed 999,999.99"@);
}

/// Which messages a creation request earns, message by message.
proof fn lemma_create_errors_contain(request: CreateProductRequest, m: Seq<char>)
    ensures
        request.errors().contains(m) <==> {
            ||| m == "Name cannot be empty"@ && (forall|i: int|
                0 <= i < request.name@.len() ==> white_space(#[trigger] request.name@[i]))
            ||| m == "Name cannot exceed 100 characters"@ && encode_utf8(request.name@).len() > 100
            ||| m == "Description cannot be empty"@ && (forall|i: int|
                0 <= i < request.description@.len() ==> white_space(
                    #[trigger] request.description@[i],
                ))
            ||| m == "Description cannot exceed 500 characters"@ && encode_utf8(
                request.description@,
            ).len() > 500
            ||| m == "Price cannot be negative"@ && request.price.range == PriceRange::Negative
            ||| m == "Price cannot exceed 999,999.99"@ && request.price.range
                == PriceRange::AboveMaximum
            ||| m == "Category cannot be empty"@ && (forall|i: int|
                0 <= i < request.category@.len() ==> white_space(#[trigger] request.category@[i]))
            ||| m == "Category cannot exceed 50 characters"@ && encode_utf8(request.category@).len()
                > 50
        },
{
    broadcast use vstd::seq_lib::lemma_seq_concat_contains_all_elements;

    lemma_messages_distinct();
    lemma_text_errors_law(
        request.name@,
        100,
        "Name cannot be empty"@,
        "Name cannot exceed 100 characters"@,
        m,
    );
    lemma_text_errors_law(
        request.description@,
        500,
        "Description cannot be empty"@,
        "Description cannot exceed 500 characters"@,
        m,
    );
    lemma_price_errors_law(request.price, m);
    lemma_text_errors_law(
        request.category@,
        50,
        "Category cannot be empty"@,
        "Category cannot exceed 50 characters"@,
        m,
    );
}

/// What validating a creation request reports, read off the request: a name,
/// description or category is refused as empty exactly when every character of
/// it is white space, and as too long exactly when its UTF-8 encoding has more
/// than 100, 500 or 50 bytes; a price is refused exactly when it is negative or
/// above 999,999.99; and the request is accepted exactly when none of these holds.
pub proof fn lemma_create_validation_law(request: CreateProductRequest, r: Result<(), Vec<String>>)
    requires
        r is Ok <==> request.errors().len() == 0,
        r matches Err(errors) ==> errors.deep_view() == request.errors(),
    ensures
        reports(r, "Name cannot be empty"@) <==> (forall|i: int|
            0 <= i < request.name@.len() ==> white_space(#[trigger] request.name@[i])),
        reports(r, "Name cannot exceed 100 characters"@) <==> encode_utf8(request.name@).len()
            > 100,
        reports(r, "Description cannot be empty"@) <==> (forall|i: int|
            0 <= i < request.description@.len() ==> white_space(
                #[trigger] request.description@[i],
            )),
        reports(r, "Description cannot exceed 500 characters"@) <==> encode_utf8(
            request.description@,
        ).len() > 500,
        reports(r, "Price cannot be negative"@) <==> request.price.range == PriceRange::Negative,
        reports(r, "Price cannot exceed 999,999.99"@) <==> request.price.range
            == PriceRange::AboveMaximum,
        reports(r, "Category cannot be empty"@) <==> (forall|i: int|
            0 <= i < request.category@.len() ==> white_space(#[trigger] request.category@[i])),
        reports(r, "Category cannot exceed 50 characters"@) <==> encode_utf8(
            request.category@,
        ).len() > 50,
        r is Ok <==> {
            &&& exists|i: int|
                0 <= i < request.name@.len() && !white_space(#[trigger] request.name@[i])
            &&& encode_utf8(request.name@).len() <= 100
            &&& exists|i: int|
                0 <= i < request.description@.len() && !white_space(
                    #[trigger] request.description@[i],
                )
            &&& encode_utf8(request.description@).len() <= 500
            &&& request.price.range == PriceRange::Allowed
            &&& exists|i: int|
                0 <= i < request.category@.len() && !white_space(#[trigger] request.category@[i])
            &&& encode_utf8(request.category@).len() <= 50
        },
{
    lemma_messages_distinct();
    lemma_create_errors_contain(request, "Name cannot be empty"@);
    lemma_create_errors_contain(request, "Name cannot exceed 100 characters"@);
    lemma_create_errors_contain(request, "Description cannot be empty"@);
    lemma_create_errors_contain(request, "Description cannot exceed 500 characters"@);
    lemma_create_errors_contain(request, "Price cannot be negative"@);
    lemma_create_errors_contain(request, "Price cannot exceed 999,999.99"@);
    lemma_create_errors_contain(request, "Category cannot be empty"@);
    lemma_create_errors_contain(request, "Category cannot exceed 50 characters"@);
    lemma_text_errors_law(
        request.name@,
        100,
        "Name cannot be empty"@,
        "Name cannot exceed 100 characters"@,
        "Name cannot be empty"@,
    );
    lemma_text_errors_law(
        request.description@,
        500,
        "Description cannot be empty"@,
        "Description cannot exceed 500 characters"@,
        "Description cannot be empty"@,
    );
    lemma_price_errors_law(request.price, "Price cannot be negative"@);
    lemma_text_errors_law(
        request.category@,
        50,
        "Category cannot be empty"@,
        "Category cannot exceed 50 characters"@,
        "Category cannot be empty"@,
    );
}

/// Which messages an update request earns, message by message.
proof fn lemma_update_errors_contain(request: UpdateProductRequest, m: Seq<char>)
    ensures
        request.errors().contains(m) <==> {
            ||| m == "Name cannot be empty"@ && (request.name matches Some(name) && forall|i: int|
                0 <= i < name@.len() ==> white_space(#[trigger] name@[i]))
            ||| m == "Name cannot exceed 100 characters"@ && (request.name matches Some(name)
                && encode_utf8(name@).len() > 100)
            ||| m == "Description cannot be empty"@ && (request.description matches Some(
                description,
            ) && forall|i: int|
                0 <= i < description@.len() ==> white_space(#[trigger] description@[i]))
            ||| m == "Description cannot exceed 500 characters"@ && (
            request.description matches Some(description) && encode_utf8(description@).len() > 500)
            ||| m == "Price cannot be negative"@ && (request.price matches Some(price) && price.range
                == PriceRange::Negative)
            ||| m == "Price cannot exceed 999,999.99"@ && (request.price matches Some(price)
                && price.range == PriceRange::AboveMaximum)
            ||| m == "Category cannot be empty"@ && (request.category matches Some(category)
                && forall|i: int| 0 <= i < category@.len() ==> white_space(#[trigger] category@[i]))
            ||| m == "Category cannot exceed 50 characters"@ && (request.category matches Some(
                category,
            ) && encode_utf8(category@).len() > 50)
            ||| m == "At least one field must be provided for update"@ && request.name is None
                && request.description is None && request.price is None && request.category is None
        },
{
    broadcast use vstd::seq_lib::lemma_seq_concat_contains_all_elements;

    lemma_messages_distinct();
    let empty = Seq::<Seq<char>>::empty();
    assert(!empty.contains(m));
    if let Some(name) = request.name {
        lemma_text_errors_law(
            name@,
            100,
            "Name cannot be empty"@,
            "Name cannot exceed 100 characters"@,
            m,
        );
    }
    if let Some(description) = request.description {
        lemma_text_errors_law(
            description@,
            500,
            "Description cannot be empty"@,
            "Description cannot exceed 500 characters"@,
            m,
        );
    }
    if let Some(price) = request.price {
        lemma_price_errors_law(price, m);
    }
    if let Some(category) = request.category {
        lemma_text_errors_law(
            category@,
            50,
            "Category cannot be empty"@,
            "Category cannot exceed 50 characters"@,
            m,
        );
    }
    let last = seq!["At least one field must be provided for update"@];
    assert(last[0] == "At least one field must be provided for update"@);
}

/// What validating an update request reports, read off the request: each
/// field it names is refused as a creation request's field is (empty when
/// every character is white space; longer than 100, 500 or 50 bytes of UTF-8;
/// a negative price or one above 999,999.99), a field it does not name is
/// never refused, and a request that names no field is refused for that.
pub proof fn lemma_update_validation_law(request: UpdateProductRequest, r: Result<(), Vec<String>>)
    requires
        r is Ok <==> request.errors().len() == 0,
        r matches Err(errors) ==> errors.deep_view() == request.errors(),
    ensures
        reports(r, "Name cannot be empty"@) <==> (request.name matches Some(name) && forall|i: int|
            0 <= i < name@.len() ==> white_space(#[trigger] name@[i])),
        reports(r, "Name cannot exceed 100 characters"@) <==> (request.name matches Some(name)
            && encode_utf8(name@).len() > 100),
        reports(r, "Description cannot be empty"@) <==> (request.description matches Some(
            description,
        ) && forall|i: int| 0 <= i < description@.len() ==> white_space(#[trigger] description@[i])),
        reports(r, "Description cannot exceed 500 characters"@) <==> (
        request.description matches Some(description) && encode_utf8(description@).len() > 500),
        reports(r, "Price cannot be negative"@) <==> (request.price matches Some(price)
            && price.range == PriceRange::Negative),
        reports(r, "Price cannot exceed 999,999.99"@) <==> (request.price matches Some(price)
            && price.range == PriceRange::AboveMaximum),
        reports(r, "Category cannot be empty"@) <==> (request.category matches Some(category)
            && forall|i: int| 0 <= i < category@.len() ==> white_space(#[trigger] category@[i])),
        reports(r, "Category cannot exceed 50 characters"@) <==> (request.category matches Some(
            category,
        ) && encode_utf8(category@).len() > 50),
        reports(r, "At least one field must be provided for update"@) <==> (request.name is None
            && request.description is None && request.price is None && request.category is None),
        r is Err <==> (exists|m: Seq<char>| reports(r, m)),
{
    lemma_messages_distinct();
    lemma_update_errors_contain(request, "Name cannot be empty"@);
    lemma_update_errors_contain(request, "Name cannot exceed 100 characters"@);
    lemma_update_errors_contain(request, "Description cannot be empty"@);
    lemma_update_errors_contain(request, "Description cannot exceed 500 characters"@);
    lemma_update_errors_contain(request, "Price cannot be negative"@);
    lemma_update_errors_contain(request, "Price cannot exceed 999,999.99"@);
    lemma_update_errors_contain(request, "Category cannot be empty"@);
    lemma_update_errors_contain(request, "Category cannot exceed 50 characters"@);
    lemma_update_errors_contain(request, "At least one field must be provided for update"@);
    if let Err(errors) = r {
        assert(errors.deep_view().len() > 0);
        assert(reports(r, errors.deep_view()[0]));
    }
}

/// An update request that names every field earns exactly the messages of the
/// creation request with the same values.
pub proof fn lemma_update_errors_as_create(create: CreateProductRequest, update: UpdateProductRequest)
    requires
        update.name == Some(create.name),
        update.description == Some(create.description),
        update.price == Some(create.price),
        update.category == Some(create.category),
    ensures
        update.errors() == create.errors(),
{
    assert(update.errors() =~= create.errors());
}

} // verus!