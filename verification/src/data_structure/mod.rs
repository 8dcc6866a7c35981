pub mod rcu;
