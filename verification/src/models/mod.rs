pub mod palms;
pub mod sea_orm_active_enums;
pub mod users;
