//! The word list that comes with the game, one word per line.

use vstd::prelude::*;

verus! {

/// The built-in word list.
pub const WORDS: &'static str = "about
above
actor
admit
adopt
again
agent
agree
alarm
album
alert
alike
alive
allow
alone
anger
angle
apple
apply
arena
argue
arise
aside
award
aware
badge
baker
basic
beach
begin
being
below
bench
birth
black
blade
blame
blank
blind
block
blood
board
brain
brand
bread
break
brick
brief
bring
broad
brown
build
cable
carry
catch
chain
chair
charm
chart
chase
cheap
check
chest
chief
child
claim
class
clean
clear
climb
clock
close
cloud
coach
coast
count
court
cover
craft
crash
cream
crime
cross
crowd
curve
cycle
daily
dance
death
delay
depth
doubt
draft
drama
dream
dress
drink
drive
eager
early
earth
eight
elite
empty
enemy
enjoy
enter
equal
error
event
exact
exist
extra
faith
false
fault
field
fight
final
flame
flash
floor
focus
force
frame
fresh
front
fruit
ghost
giant
glass
globe
goldy
grace
grade
grain
grand
grant
grass
great
green
group
guard
guess
guide
happy
heart
heavy
horse
hotel
house
human
ideal
image
index
inner
input
issue
joint
judge
knife
large
laugh
layer
learn
lemon
level
light
limit
local
logic
lucky
lunch
magic
major
march
match
metal
might
minor
model
money
month
moral
mount
mouse
mouth
music
nerve
never
night
noise
north
novel
nurse
ocean
offer
often
order
other
outer
owner
paint
panel
paper
party
peace
phase
phone
piano
piece
pilot
pitch
place
plain
plane
plant
plate
point
pound
power
press
price
pride
prime
print
prize
proof
proud
queen
quick
quiet
radio
raise
range
rapid
ratio
reach
ready
river
robot
round
route
royal
rural
scale
scene
scope
score
sense
serve
shade
shape
share
sharp
sheep
shelf
shell
shift
shirt
shock
short
sight
skill
sleep
slide
small
smart
smile
smoke
solid
sound
south
space
spare
speak
speed
spend
sport
staff
stage
stand
start
state
steam
steel
stick
still
stock
stone
store
storm
story
study
style
sugar
sweet
table
taste
teach
theme
thick
thing
think
throw
tiger
title
total
touch
tower
track
trade
train
trend
trial
truck
trust
truth
twice
uncle
under
union
unity
upper
urban
usual
value
video
visit
voice
waste
watch
water
wheel
white
whole
woman
world
worry
write
young
youth";

} // verus!
