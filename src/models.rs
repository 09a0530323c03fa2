//! The records and request bodies that the application exchanges. Identifiers
//! are UUIDs as numbers; times are microseconds since the Unix epoch, UTC.
use vstd::prelude::*;

verus! {

/// A product category.
pub struct Category {
    pub id: i32,
    pub name: String,
}

/// A category with the number of products filed under it.
pub struct CategoryWithCount {
    pub id: i32,
    pub name: String,
    pub product_count: i64,
}

/// Where an order stands.
#[derive(Clone, Copy, Debug, PartialEq, Eq, Structural)]
pub enum OrderStatus {
    Pending,
    Shipped,
    Delivered,
}

impl OrderStatus {
    pub open spec fn spec_as_str(&self) -> Seq<char> {
        match self {
            OrderStatus::Pending => "pending"@,
            OrderStatus::Shipped => "shipped"@,
            OrderStatus::Delivered => "delivered"@,
        }
    }

    /// The lower-case name under which the status is stored and sent.
    pub fn as_str(&self) -> (r: &'static str)
        ensures
            r@ == self.spec_as_str(),
    {
        match self {
            OrderStatus::Pending => "pending",
            OrderStatus::Shipped => "shipped",
            OrderStatus::Delivered => "delivered",
        }
    }
}

pub struct RegisterRequest {
    pub email: String,
    pub password: String,
    pub is_supplier: bool,
    pub name: Option<String>,
    pub phone: Option<String>,
}

pub struct LoginRequest {
    pub email: String,
    pub password: String,
}

pub struct PasswordResetRequest {
    pub email: String,
}

pub struct PasswordResetVerify {
    pub email: String,
    pub otp: String,
    pub new_password: String,
}

/// Filters and paging of a product listing.
pub struct ProductQuery {
    pub search: Option<String>,
    pub category: Option<i32>,
    pub sort: Option<String>,
    pub page: Option<i32>,
    pub limit: Option<i32>,
}

pub struct UpdateOrderStatusRequest {
    pub status: OrderStatus,
}

pub struct UpdateProfileRequest {
    pub name: Option<String>,
    pub phone: Option<String>,
    pub profile_image_url: Option<String>,
}

pub struct UpdateSettingsRequest {
    pub become_supplier: Option<bool>,
}

/// A chat message as pushed over a connection.
pub struct WsMessage {
    pub conv_id: u128,
    pub content: String,
    pub sender_id: u128,
    pub sent_at: i64,
}

} // verus!
