//! A subgraph of reviews.

use vstd::prelude::*;
use vstd::string::*;
use crate::text::same_text;

verus! {

/// How far a user is trusted.
#[derive(Debug, Clone, Copy, PartialEq, Eq, Structural)]
pub enum Trustworthiness {
    ReallyTrusted,
    KindaTrusted,
    NotTrusted,
}

/// A user.
#[derive(Debug)]
pub struct User {
    pub id: String,
    pub review_count: u32,
    pub joined_timestamp: u64,
}

/// A picture of a review.
#[derive(Debug)]
pub struct Picture {
    pub url: String,
    pub width: u32,
    pub height: u32,
    pub alt_text: String,
}

/// The product of a review.
#[derive(Debug)]
pub struct Product {
    pub upc: String,
    pub price: i32,
}

/// A review.
#[derive(Debug)]
pub struct Review {
    pub id: String,
    pub body: String,
    pub pictures: Vec<Picture>,
    pub author_id: Option<String>,
    pub product: Product,
}

/// A shipping service.
#[derive(Debug)]
pub struct ShippingService {
    pub id: String,
    pub name: String,
}

/// A review of a shipping service.
#[derive(Debug)]
pub struct ShippingServiceReview {
    pub body: String,
}

/// The subgraph: its reviews.
pub struct FederatedReviewsSchema {
    pub reviews: Vec<Review>,
}

/// The joined timestamp of a user of whom none is known.
pub const UNKNOWN_JOINED_TIMESTAMP: u64 = 9001;

/// The number of reviews that the user `id` wrote.
pub open spec fn review_count_of(id: Seq<char>) -> u32 {
    if id == "1234"@ {
        2
    } else if id == "7777"@ {
        1
    } else {
        0
    }
}

/// How far a user who joined at `joined_timestamp` and wrote
/// `review_count` reviews is trusted.
pub open spec fn trust(joined_timestamp: u64, review_count: u32) -> Trustworthiness {
    if joined_timestamp < 1000 && review_count > 1 {
        Trustworthiness::ReallyTrusted
    } else if joined_timestamp < 2000 {
        Trustworthiness::KindaTrusted
    } else {
        Trustworthiness::NotTrusted
    }
}

/// The user `id`, who joined at `joined_timestamp` if that is known.
pub fn user_by_id(id: String, joined_timestamp: Option<u64>) -> (user: User)
    ensures
        user.id == id,
        user.review_count == review_count_of(id@),
        user.joined_timestamp == match joined_timestamp {
            Some(timestamp) => timestamp,
            None => UNKNOWN_JOINED_TIMESTAMP,
        },
{
    let review_count: u32 = if same_text(id.as_str(), "1234") {
        2
    } else if same_text(id.as_str(), "7777") {
        1
    } else {
        0
    };
    let joined_timestamp = match joined_timestamp {
        Some(timestamp) => timestamp,
        None => 9001,
    };
    User { id, review_count, joined_timestamp }
}

impl User {
    /// How far the user is trusted.
    pub fn trustworthiness(&self) -> (level: Trustworthiness)
        ensures
            level == trust(self.joined_timestamp, self.review_count),
    {
        if self.joined_timestamp < 1000 && self.review_count > 1 {
            Trustworthiness::ReallyTrusted
        } else if self.joined_timestamp < 2000 {
            Trustworthiness::KindaTrusted
        } else {
            Trustworthiness::NotTrusted
        }
    }
}

impl ShippingService {
    /// The shipping service `id`, named `name` if a name is known.
    pub fn shipping_service_by_id(id: String, name: Option<String>) -> (service: ShippingService)
        ensures
            service.id == id,
            match name {
                Some(name) => service.name == name,
                None => service.name@.len() == 0,
            },
    {
        let name = match name {
            Some(name) => name,
            None => String::new(),
        };
        ShippingService { id, name }
    }

    /// The reviews of the service: one for each of the two services that
    /// have any.
    pub fn reviews(&self) -> (reviews: Vec<ShippingServiceReview>)
        ensures
            if self.name@ == "Planet Express"@ {
                reviews@.len() == 1 && reviews@[0].body@ == "Not as good as Mom's Friendly Delivery Company"@
            } else if self.name@ == "Cher Ami"@ {
                reviews@.len() == 1 && reviews@[0].body@ == "Saved my life in the war"@
            } else {
                reviews@.len() == 0
            },
    {
        let mut reviews: Vec<ShippingServiceReview> = Vec::new();
        if same_text(self.name.as_str(), "Planet Express") {
            reviews.push(
                ShippingServiceReview { body: String::from_str("Not as good as Mom's Friendly Delivery Company") },
            );
        } else if same_text(self.name.as_str(), "Cher Ami") {
            reviews.push(ShippingServiceReview { body: String::from_str("Saved my life in the war") });
        }
        reviews
    }
}

fn review(id: &str, author_id: Option<&str>, body: &str, pictures: Vec<Picture>, upc: &str, price: i32) -> (review:
    Review)
    ensures
        review.id@ == id@,
        review.body@ == body@,
        review.pictures == pictures,
        review.product.upc@ == upc@,
        review.product.price == price,
        match author_id {
            Some(author) => review.author_id matches Some(a) && a@ == author@,
            None => review.author_id is None,
        },
{
    let author_id = match author_id {
        Some(author) => Some(String::from_str(author)),
        None => None,
    };
    Review {
        id: String::from_str(id),
        body: String::from_str(body),
        pictures,
        author_id,
        product: Product { upc: String::from_str(upc), price },
    }
}

impl FederatedReviewsSchema {
    /// The name of the subgraph.
    pub fn name(&self) -> (name: String)
        ensures
            name@ == "reviews"@,
    {
        String::from_str("reviews")
    }

    /// The subgraph with its four reviews.
    pub fn default() -> (schema: Self)
        ensures
            schema.reviews@.len() == 4,
            schema.reviews@[0].id@ == "review-1"@,
            schema.reviews@[0].pictures@.len() == 2,
            schema.reviews@[0].product.upc@ == "top-1"@,
            schema.reviews@[0].product.price == 10,
            schema.reviews@[1].id@ == "review-2"@,
            schema.reviews@[1].product.upc@ == "top-2"@,
            schema.reviews@[1].product.price == 20,
            schema.reviews@[2].id@ == "review-3"@,
            schema.reviews@[2].product.upc@ == "top-3"@,
            schema.reviews@[2].product.price == 30,
            schema.reviews@[3].id@ == "review-5"@,
            schema.reviews@[3].author_id is None,
            schema.reviews@[3].product.upc@ == "top-5"@,
            schema.reviews@[3].product.price == 50,
    {
        let mut pictures: Vec<Picture> = Vec::new();
        pictures.push(
            Picture {
                url: String::from_str("http://localhost:8080/ugly_hat.jpg"),
                width: 100,
                height: 100,
                alt_text: String::from_str("A Trilby"),
            },
        );
        pictures.push(
            Picture {
                url: String::from_str("http://localhost:8080/troll_face.jpg"),
                width: 42,
                height: 42,
                alt_text: String::from_str("The troll face meme"),
            },
        );
        let mut reviews: Vec<Review> = Vec::new();
        reviews.push(
            review("review-1", Some("1234"), "A highly effective form of birth control.", pictures, "top-1", 10),
        );
        reviews.push(
            review(
                "review-2",
                Some("1234"),
                "Fedoras are one of the most fashionable hats around and can look great with a variety of outfits.",
                Vec::new(),
                "top-2",
                20,
            ),
        );
        reviews.push(
            review(
                "review-3",
                Some("7777"),
                "This is the last straw. Hat you will wear. 11/10",
                Vec::new(),
                "top-3",
                30,
            ),
        );
        reviews.push(
            review(
                "review-5",
                None,
                "Beautiful Pink, my parrot loves it. Definitely recommend!",
                Vec::new(),
                "top-5",
                50,
            ),
        );
        FederatedReviewsSchema { reviews }
    }

    /// The author of a review, if it has one.
    pub fn author(review: &Review) -> (author: Option<User>)
        ensures
            match review.author_id {
                Some(id) => author matches Some(user) && user.id@ == id@ && user.review_count == review_count_of(id@)
                    && user.joined_timestamp == UNKNOWN_JOINED_TIMESTAMP,
                None => author is None,
            },
    {
        match &review.author_id {
            Some(id) => Some(user_by_id(id.clone(), None)),
            None => None,
        }
    }
}

} // verus!
