//! Data shapes of the backend collaborator.
//!
//! The core issues no network calls itself; these are the typed request
//! and response bodies the surrounding adapter exchanges with the HTTP
//! backend for guests, cards, kegs, taps, pours and beverages. Money and
//! decimal quantities travel as strings, exactly as the backend
//! serializes them.

use vstd::prelude::*;

verus! {

// --- Auth ---

pub struct LoginCredentials<'a> {
    pub username: &'a str,
    pub password: &'a str,
}

// --- Cards ---

#[derive(Debug, Clone)]
pub struct CardInfo {
    pub card_uid: String,
    pub status: String,
    pub guest_id: Option<String>,
    pub created_at: String,
}

#[derive(Debug)]
pub struct BindCardPayload<'a> {
    pub card_uid: &'a str,
}

// --- Transactions & pours ---

#[derive(Debug, Clone)]
pub struct Transaction {
    pub transaction_id: String,
    pub amount: String,
    pub kind: String,
    pub created_at: String,
}

#[derive(Debug, Clone)]
pub struct Pour {
    pub pour_id: String,
    pub volume_ml: i32,
    pub amount_charged: String,
    pub poured_at: String,
}

#[derive(Debug)]
pub struct TopUpPayload {
    pub amount: String,
    pub payment_method: String,
}

#[derive(Debug, Clone)]
pub struct PourGuest {
    pub guest_id: String,
    pub last_name: String,
    pub first_name: String,
}

#[derive(Debug, Clone)]
pub struct PourResponse {
    pub pour_id: String,
    pub volume_ml: i32,
    pub amount_charged: String,
    pub poured_at: String,
    pub guest: PourGuest,
    pub beverage: Beverage,
    pub tap: Tap,
}

// --- Guests ---

#[derive(Debug, Clone)]
pub struct Guest {
    pub guest_id: String,
    pub last_name: String,
    pub first_name: String,
    pub patronymic: Option<String>,
    pub phone_number: String,
    pub date_of_birth: String,
    pub id_document: String,
    pub balance: String,
    pub is_active: bool,
    pub created_at: String,
    pub updated_at: String,
    pub cards: Vec<CardInfo>,
    pub transactions: Vec<Transaction>,
    pub pours: Vec<Pour>,
}

#[derive(Debug)]
pub struct GuestPayload {
    pub last_name: String,
    pub first_name: String,
    pub patronymic: Option<String>,
    pub phone_number: String,
    pub date_of_birth: String,
    pub id_document: String,
}

#[derive(Debug)]
pub struct GuestUpdatePayload {
    pub last_name: Option<String>,
    pub first_name: Option<String>,
    pub patronymic: Option<String>,
    pub phone_number: Option<String>,
    pub date_of_birth: Option<String>,
    pub id_document: Option<String>,
    pub is_active: Option<bool>,
}

// --- Kegs, taps, beverages ---

#[derive(Debug, Clone)]
pub struct Beverage {
    pub beverage_id: String,
    pub name: String,
    pub style: Option<String>,
    pub brewery: Option<String>,
    pub abv: Option<String>,
    pub sell_price_per_liter: String,
}

#[derive(Debug)]
pub struct BeveragePayload {
    pub name: String,
    pub style: Option<String>,
    pub brewery: Option<String>,
    pub abv: Option<String>,
    pub sell_price_per_liter: String,
}

#[derive(Debug, Clone)]
pub struct Keg {
    pub keg_id: String,
    pub initial_volume_ml: i32,
    pub current_volume_ml: i32,
    pub purchase_price: String,
    pub status: String,
    pub created_at: String,
    pub tapped_at: Option<String>,
    pub finished_at: Option<String>,
    pub beverage: Beverage,
}

#[derive(Debug)]
pub struct KegPayload {
    pub beverage_id: String,
    pub initial_volume_ml: i32,
    pub purchase_price: String,
}

#[derive(Debug)]
pub struct KegUpdatePayload {
    pub status: Option<String>,
}

#[derive(Debug, Clone)]
pub struct Tap {
    pub tap_id: i32,
    pub display_name: String,
    pub status: String,
    pub keg_id: Option<String>,
    pub keg: Option<Keg>,
}

#[derive(Debug)]
pub struct TapUpdatePayload {
    pub display_name: Option<String>,
    pub status: Option<String>,
}

#[derive(Debug)]
pub struct AssignKegPayload {
    pub keg_id: String,
}

} // verus!
